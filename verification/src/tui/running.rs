//! The running-work screen: the log lines of a background job, one pane per
//! agent, which pane has the focus, and the pending gate.

use vstd::prelude::*;

use crate::kernel::text::{push_str, spec_contains, spec_starts_with, str_contains, str_starts_with};
use crate::tui::agent_terminal::{
    classify_agent_line, spec_classify, spec_keep_last, spec_max_offset, AgentTerminal, AgentTerminalRole,
};
use crate::kernel::stream::unicode_lowercase;

verus! {

broadcast use vstd::string::group_string_axioms;

/// How many log lines the screen keeps.
pub const MAX_LOG_LINES: usize = 200;

/// The running-work screen.
#[derive(Debug, Clone)]
pub struct ExecState {
    pub title: String,
    pub lines: Vec<String>,
    pub architect_terminal: AgentTerminal,
    pub revisor_terminal: AgentTerminal,
    pub dev_terminal: AgentTerminal,
    pub auditor_terminal: AgentTerminal,
    /// The agent whose output raw lines are attributed to.
    pub active_role: Option<AgentTerminalRole>,
    /// The pane the human chose, if any.
    pub focused_role: Option<AgentTerminalRole>,
    pub has_planning_revisor: bool,
    pub split_panes: bool,
    pub gate_content: Option<String>,
    /// `planning`, `diff_review`, `apply`, `inter_task` or `error`.
    pub gate_type: String,
}

/// The panes shown: the planning panes once a planning agent has written
/// (the Revisor's only when it has), otherwise the Dev's and the Auditor's.
pub open spec fn spec_visible_roles(architect_empty: bool, revisor_empty: bool) -> Seq<AgentTerminalRole> {
    if !architect_empty || !revisor_empty {
        if !revisor_empty {
            seq![AgentTerminalRole::Architect, AgentTerminalRole::Revisor]
        } else {
            seq![AgentTerminalRole::Architect]
        }
    } else {
        seq![AgentTerminalRole::Dev, AgentTerminalRole::Auditor]
    }
}

/// The pane after `cur` among `roles` (one or two panes), wrapping around.
pub open spec fn spec_next_focus(roles: Seq<AgentTerminalRole>, cur: AgentTerminalRole) -> AgentTerminalRole {
    if roles.len() == 2 && roles[0] == cur {
        roles[1]
    } else {
        roles[0]
    }
}

/// A log line that reports an error.
pub open spec fn spec_error_line(l: Seq<char>) -> bool {
    spec_starts_with(l, "ERRO:"@) || spec_contains(l, "❌"@) || spec_contains(l, "ERRO"@)
}

impl ExecState {
    /// Every pane is well formed and the log is within its cap.
    pub open spec fn wf(&self) -> bool {
        &&& self.architect_terminal.wf()
        &&& self.revisor_terminal.wf()
        &&& self.dev_terminal.wf()
        &&& self.auditor_terminal.wf()
        &&& self.lines@.len() <= MAX_LOG_LINES
    }

    /// The roles of the panes shown.
    pub open spec fn spec_roles(&self) -> Seq<AgentTerminalRole> {
        spec_visible_roles(
            self.architect_terminal.spec_lines().len() == 0,
            self.revisor_terminal.spec_lines().len() == 0,
        )
    }

    /// The pane that has the focus: the chosen one if shown, else the first
    /// shown.
    pub open spec fn spec_focused(&self) -> AgentTerminalRole {
        match self.focused_role {
            Some(r) => if self.spec_roles().contains(r) { r } else { self.spec_roles()[0] },
            None => self.spec_roles()[0],
        }
    }

    /// The pane of `role`.
    pub open spec fn spec_terminal(&self, role: AgentTerminalRole) -> AgentTerminal {
        match role {
            AgentTerminalRole::Architect => self.architect_terminal,
            AgentTerminalRole::Revisor => self.revisor_terminal,
            AgentTerminalRole::Dev => self.dev_terminal,
            AgentTerminalRole::Auditor => self.auditor_terminal,
        }
    }

    /// `self` is `before` with only the pane of `role` moved, to scroll
    /// offset `offset`; its lines and title, the other panes, the log, the
    /// focus and the pending question are unchanged.
    pub open spec fn spec_only_pane_scrolled(&self, before: ExecState, role: AgentTerminalRole, offset: nat) -> bool {
        &&& self.title == before.title
        &&& self.lines == before.lines
        &&& self.active_role == before.active_role
        &&& self.focused_role == before.focused_role
        &&& self.has_planning_revisor == before.has_planning_revisor
        &&& self.split_panes == before.split_panes
        &&& self.gate_content == before.gate_content
        &&& self.gate_type == before.gate_type
        &&& self.spec_terminal(role).spec_lines() == before.spec_terminal(role).spec_lines()
        &&& self.spec_terminal(role).spec_title() == before.spec_terminal(role).spec_title()
        &&& self.spec_terminal(role).spec_offset() == offset
        &&& forall|other: AgentTerminalRole| other != role ==> #[trigger] self.spec_terminal(other) == before.spec_terminal(other)
    }

    /// A fresh screen titled `title`, with empty panes.
    pub fn new(title: String) -> (r: ExecState)
        ensures
            r.wf(),
            r.title == title,
            r.lines@.len() == 0,
            r.architect_terminal.spec_lines().len() == 0,
            r.revisor_terminal.spec_lines().len() == 0,
            r.dev_terminal.spec_lines().len() == 0,
            r.auditor_terminal.spec_lines().len() == 0,
            r.architect_terminal.spec_title() == "Arquiteto"@,
            r.revisor_terminal.spec_title() == "Revisor"@,
            r.dev_terminal.spec_title() == "Dev"@,
            r.auditor_terminal.spec_title() == "Auditora"@,
            r.active_role is None && r.focused_role is None,
            !r.has_planning_revisor && !r.split_panes,
            r.gate_content is None,
            r.gate_type@.len() == 0,
    {
        ExecState {
            title,
            lines: Vec::new(),
            architect_terminal: AgentTerminal::new("Arquiteto"),
            revisor_terminal: AgentTerminal::new("Revisor"),
            dev_terminal: AgentTerminal::new("Dev"),
            auditor_terminal: AgentTerminal::new("Auditora"),
            active_role: None,
            focused_role: None,
            has_planning_revisor: false,
            split_panes: false,
            gate_content: None,
            gate_type: String::new(),
        }
    }

    /// Logs a line: a line recognised as an agent's makes that agent the
    /// active one (and the focused one, if none is); the line goes to the
    /// pane of its agent, else of the active agent; the log keeps its last
    /// `MAX_LOG_LINES` lines.
    pub fn push_line(&mut self, line: String)
        requires
            old(self).wf(),
        ensures
            final(self).wf(),
            ({
                let role = spec_classify(unicode_lowercase(line@));
                let active = if role is Some { role } else { old(self).active_role };
                &&& final(self).active_role == active
                &&& final(self).focused_role == (if old(self).focused_role is None && role is Some {
                    role
                } else {
                    old(self).focused_role
                })
                &&& forall|r: AgentTerminalRole| #![auto] final(self).spec_terminal(r).spec_lines() == if active
                    == Some(r) {
                    spec_keep_last(old(self).spec_terminal(r).spec_lines().push(line@), 250)
                } else {
                    old(self).spec_terminal(r).spec_lines()
                }
                &&& final(self).lines.deep_view() == spec_keep_last(
                    old(self).lines.deep_view().push(line@),
                    MAX_LOG_LINES as nat,
                )
            }),
            final(self).title == old(self).title,
            final(self).gate_type == old(self).gate_type,
            final(self).gate_content == old(self).gate_content,
            final(self).split_panes == old(self).split_panes,
            final(self).has_planning_revisor == old(self).has_planning_revisor,
    {
        let role = classify_agent_line(line.as_str());
        match role {
            Some(r) => {
                self.active_role = Some(r);
                if self.focused_role.is_none() {
                    self.focused_role = Some(r);
                }
            },
            None => {},
        }
        let target = match role {
            Some(r) => Some(r),
            None => self.active_role,
        };
        match target {
            Some(AgentTerminalRole::Architect) => self.architect_terminal.push_line(line.clone()),
            Some(AgentTerminalRole::Revisor) => self.revisor_terminal.push_line(line.clone()),
            Some(AgentTerminalRole::Dev) => self.dev_terminal.push_line(line.clone()),
            Some(AgentTerminalRole::Auditor) => self.auditor_terminal.push_line(line.clone()),
            None => {},
        }
        let ghost pushed = self.lines.deep_view().push(line@);
        self.lines.push(line);
        assert(self.lines.deep_view() =~= pushed);
        if self.lines.len() > MAX_LOG_LINES {
            let from = self.lines.len() - MAX_LOG_LINES;
            let mut kept: Vec<String> = Vec::new();
            let mut i = from;
            while i < self.lines.len()
                invariant
                    from <= i <= self.lines@.len(),
                    self.lines.deep_view() == pushed,
                    kept.deep_view() == pushed.subrange(from as int, i as int),
                decreases self.lines@.len() - i,
            {
                let c = self.lines[i].clone();
                assert(pushed[i as int] == self.lines@[i as int]@);
                let ghost before = kept.deep_view();
                kept.push(c);
                assert(kept.deep_view() =~= before.push(c@));
                assert(kept.deep_view() =~= pushed.subrange(from as int, i + 1));
                i = i + 1;
            }
            self.lines = kept;
        }
    }

    /// Logs an error line.
    pub fn push_error(&mut self, error: &str)
        requires
            old(self).wf(),
        ensures
            final(self).wf(),
            final(self).lines.deep_view() == spec_keep_last(
                old(self).lines.deep_view().push("ERRO: "@ + error@),
                MAX_LOG_LINES as nat,
            ),
    {
        let mut s = String::from_str("ERRO: ");
        push_str(&mut s, error);
        self.push_line(s);
    }

    /// The panes shown, in order.
    pub fn visible_roles(&self) -> (r: Vec<AgentTerminalRole>)
        ensures
            r@ == self.spec_roles(),
    {
        let arch_empty = self.architect_terminal.is_empty();
        let rev_empty = self.revisor_terminal.is_empty();
        let mut roles: Vec<AgentTerminalRole> = Vec::new();
        if !arch_empty || !rev_empty {
            roles.push(AgentTerminalRole::Architect);
            if !rev_empty {
                roles.push(AgentTerminalRole::Revisor);
            }
        } else {
            roles.push(AgentTerminalRole::Dev);
            roles.push(AgentTerminalRole::Auditor);
        }
        assert(roles@ =~= self.spec_roles());
        roles
    }

    /// The pane that has the focus.
    pub fn focused_role(&self) -> (r: AgentTerminalRole)
        ensures
            r == self.spec_focused(),
    {
        let roles = self.visible_roles();
        match self.focused_role {
            Some(f) => {
                let mut i: usize = 0;
                while i < roles.len()
                    invariant
                        i <= roles@.len(),
                        roles@ == self.spec_roles(),
                        self.focused_role == Some(f),
                        forall|j: int| 0 <= j < i ==> roles@[j] != f,
                    decreases roles@.len() - i,
                {
                    if roles[i] == f {
                        assert(roles@[i as int] == f);
                        assert(roles@.contains(f));
                        return f;
                    }
                    i = i + 1;
                }
                assert(!roles@.contains(f));
                roles[0]
            },
            None => roles[0],
        }
    }

    /// Moves the focus to the next pane shown, wrapping around.
    pub fn cycle_focus(&mut self)
        requires
            old(self).wf(),
        ensures
            final(self).wf(),
            final(self).focused_role == Some(spec_next_focus(old(self).spec_roles(), old(self).spec_focused())),
            final(self).lines == old(self).lines,
            final(self).architect_terminal == old(self).architect_terminal,
            final(self).revisor_terminal == old(self).revisor_terminal,
            final(self).dev_terminal == old(self).dev_terminal,
            final(self).auditor_terminal == old(self).auditor_terminal,
    {
        let roles = self.visible_roles();
        let current = self.focused_role();
        let next = if roles.len() == 2 && roles[0] == current {
            roles[1]
        } else {
            roles[0]
        };
        self.focused_role = Some(next);
    }

    /// Scrolls the focused pane back by `amount` lines.
    pub fn scroll_focused_up(&mut self, amount: usize)
        requires
            old(self).wf(),
        ensures
            final(self).wf(),
            final(self).focused_role == old(self).focused_role,
            final(self).lines == old(self).lines,
            final(self).spec_focused() == old(self).spec_focused(),
            ({
                let f = old(self).spec_focused();
                let t = old(self).spec_terminal(f);
                final(self).spec_only_pane_scrolled(*old(self), f, if t.spec_offset() + amount <= spec_max_offset(t.spec_lines().len()) {
                    (t.spec_offset() + amount) as nat
                } else {
                    spec_max_offset(t.spec_lines().len())
                })
            }),
    {
        let role = self.focused_role();
        match role {
            AgentTerminalRole::Architect => self.architect_terminal.scroll_up(amount),
            AgentTerminalRole::Revisor => self.revisor_terminal.scroll_up(amount),
            AgentTerminalRole::Dev => self.dev_terminal.scroll_up(amount),
            AgentTerminalRole::Auditor => self.auditor_terminal.scroll_up(amount),
        }
    }

    /// Scrolls the focused pane forward by `amount` lines.
    pub fn scroll_focused_down(&mut self, amount: usize)
        requires
            old(self).wf(),
        ensures
            final(self).wf(),
            final(self).focused_role == old(self).focused_role,
            final(self).lines == old(self).lines,
            final(self).spec_focused() == old(self).spec_focused(),
            ({
                let f = old(self).spec_focused();
                let t = old(self).spec_terminal(f);
                final(self).spec_only_pane_scrolled(*old(self), f, if t.spec_offset() >= amount {
                    (t.spec_offset() - amount) as nat
                } else {
                    0
                })
            }),
    {
        let role = self.focused_role();
        match role {
            AgentTerminalRole::Architect => self.architect_terminal.scroll_down(amount),
            AgentTerminalRole::Revisor => self.revisor_terminal.scroll_down(amount),
            AgentTerminalRole::Dev => self.dev_terminal.scroll_down(amount),
            AgentTerminalRole::Auditor => self.auditor_terminal.scroll_down(amount),
        }
    }

    /// Scrolls the focused pane back to its first line.
    pub fn scroll_focused_top(&mut self)
        requires
            old(self).wf(),
        ensures
            final(self).wf(),
            final(self).focused_role == old(self).focused_role,
            final(self).lines == old(self).lines,
            final(self).spec_focused() == old(self).spec_focused(),
            ({
                let f = old(self).spec_focused();
                let t = old(self).spec_terminal(f);
                final(self).spec_only_pane_scrolled(*old(self), f, spec_max_offset(t.spec_lines().len()))
            }),
    {
        let role = self.focused_role();
        match role {
            AgentTerminalRole::Architect => self.architect_terminal.scroll_top(),
            AgentTerminalRole::Revisor => self.revisor_terminal.scroll_top(),
            AgentTerminalRole::Dev => self.dev_terminal.scroll_top(),
            AgentTerminalRole::Auditor => self.auditor_terminal.scroll_top(),
        }
    }

    /// Brings the focused pane back to its bottom.
    pub fn scroll_focused_bottom(&mut self)
        requires
            old(self).wf(),
        ensures
            final(self).wf(),
            final(self).focused_role == old(self).focused_role,
            final(self).lines == old(self).lines,
            final(self).spec_focused() == old(self).spec_focused(),
            ({
                let f = old(self).spec_focused();
                let t = old(self).spec_terminal(f);
                final(self).spec_only_pane_scrolled(*old(self), f, 0)
            }),
    {
        let role = self.focused_role();
        match role {
            AgentTerminalRole::Architect => self.architect_terminal.scroll_bottom(),
            AgentTerminalRole::Revisor => self.revisor_terminal.scroll_bottom(),
            AgentTerminalRole::Dev => self.dev_terminal.scroll_bottom(),
            AgentTerminalRole::Auditor => self.auditor_terminal.scroll_bottom(),
        }
    }

    /// Logs a line whose author is known at the source: that agent becomes
    /// the active one (and the focused one, if none is) and the line goes to
    /// its pane.
    pub fn push_agent_line(&mut self, text: String, role: AgentTerminalRole)
        requires
            old(self).wf(),
        ensures
            final(self).wf(),
            final(self).active_role == Some(role),
            final(self).focused_role == (if old(self).focused_role is None {
                Some(role)
            } else {
                old(self).focused_role
            }),
            final(self).spec_terminal(role).spec_lines() == spec_keep_last(
                old(self).spec_terminal(role).spec_lines().push(text@),
                250,
            ),
    {
        self.active_role = Some(role);
        if self.focused_role.is_none() {
            self.focused_role = Some(role);
        }
        match role {
            AgentTerminalRole::Architect => self.architect_terminal.push_line(text.clone()),
            AgentTerminalRole::Revisor => self.revisor_terminal.push_line(text.clone()),
            AgentTerminalRole::Dev => self.dev_terminal.push_line(text.clone()),
            AgentTerminalRole::Auditor => self.auditor_terminal.push_line(text.clone()),
        }
        let ghost pushed = self.lines.deep_view().push(text@);
        self.lines.push(text);
        assert(self.lines.deep_view() =~= pushed);
        if self.lines.len() > MAX_LOG_LINES {
            let from = self.lines.len() - MAX_LOG_LINES;
            let mut kept: Vec<String> = Vec::new();
            let mut i = from;
            while i < self.lines.len()
                invariant
                    from <= i <= self.lines@.len(),
                    self.lines.deep_view() == pushed,
                    kept.deep_view() == pushed.subrange(from as int, i as int),
                decreases self.lines@.len() - i,
            {
                let c = self.lines[i].clone();
                assert(pushed[i as int] == self.lines@[i as int]@);
                let ghost before = kept.deep_view();
                kept.push(c);
                assert(kept.deep_view() =~= before.push(c@));
                assert(kept.deep_view() =~= pushed.subrange(from as int, i + 1));
                i = i + 1;
            }
            self.lines = kept;
        }
    }

    /// Some logged line reports an error.
    pub fn has_errors(&self) -> (r: bool)
        ensures
            r == exists|i: int| 0 <= i < self.lines@.len() && spec_error_line(#[trigger] self.lines@[i]@),
    {
        let mut i: usize = 0;
        while i < self.lines.len()
            invariant
                i <= self.lines@.len(),
                forall|j: int| 0 <= j < i ==> !spec_error_line(#[trigger] self.lines@[j]@),
            decreases self.lines@.len() - i,
        {
            let l = self.lines[i].as_str();
            if str_starts_with(l, "ERRO:") || str_contains(l, "❌") || str_contains(l, "ERRO") {
                assert(spec_error_line(self.lines@[i as int]@));
                return true;
            }
            i = i + 1;
        }
        false
    }

    /// Shows the panes side by side, or one at a time.
    pub fn toggle_split_panes(&mut self)
        requires
            old(self).wf(),
        ensures
            final(self).wf(),
            final(self).split_panes == !old(self).split_panes,
            final(self).lines == old(self).lines,
            final(self).focused_role == old(self).focused_role,
    {
        self.split_panes = !self.split_panes;
    }
}

} // verus!

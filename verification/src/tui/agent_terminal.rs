//! One agent's pane in the terminal UI: the lines it shows, how far it is
//! scrolled back, and which agent a raw log line belongs to. Drawing the pane
//! belongs to the program around this library.

use vstd::prelude::*;

use crate::kernel::stream::{to_lowercase, unicode_lowercase, LineOrigin};
use crate::kernel::text::{
    join_strings, lines, push_decimal, push_str, spec_contains, spec_decimal, spec_join, spec_lines,
    spec_starts_with, str_contains, str_starts_with, chars_of,
};

verus! {

broadcast use vstd::string::group_string_axioms;

/// The agent a pane belongs to.
#[derive(Debug, Clone, Copy, PartialEq, Eq, Structural)]
pub enum AgentTerminalRole {
    Architect,
    Revisor,
    Dev,
    Auditor,
}

impl AgentTerminalRole {
    /// The pane of a line whose author is known at the source.
    pub fn from_origin(origin: LineOrigin) -> (r: AgentTerminalRole)
        ensures
            r == (match origin {
                LineOrigin::Architect => AgentTerminalRole::Architect,
                LineOrigin::Revisor => AgentTerminalRole::Revisor,
                LineOrigin::Dev => AgentTerminalRole::Dev,
                LineOrigin::Auditor => AgentTerminalRole::Auditor,
            }),
    {
        match origin {
            LineOrigin::Architect => AgentTerminalRole::Architect,
            LineOrigin::Revisor => AgentTerminalRole::Revisor,
            LineOrigin::Dev => AgentTerminalRole::Dev,
            LineOrigin::Auditor => AgentTerminalRole::Auditor,
        }
    }
}

/// How many lines a pane keeps.
pub const MAX_LINES: usize = 250;

/// The last `n` items of `v` (all of them when there are fewer).
pub open spec fn spec_keep_last(v: Seq<Seq<char>>, n: nat) -> Seq<Seq<char>> {
    if v.len() > n {
        v.subrange(v.len() - n, v.len() as int)
    } else {
        v
    }
}

/// The largest scroll offset for `len` lines.
pub open spec fn spec_max_offset(len: nat) -> nat {
    if len > 0 {
        (len - 1) as nat
    } else {
        0
    }
}

/// An agent's pane: its title, its last lines and how many lines it is
/// scrolled back from the bottom.
#[derive(Debug, Clone)]
pub struct AgentTerminal {
    title: &'static str,
    lines: Vec<String>,
    max_lines: usize,
    scroll_offset: usize,
}

impl AgentTerminal {
    /// The pane's title.
    pub closed spec fn spec_title(&self) -> Seq<char> {
        self.title@
    }

    /// The lines shown, oldest first.
    pub closed spec fn spec_lines(&self) -> Seq<Seq<char>> {
        self.lines.deep_view()
    }

    /// How many lines the pane is scrolled back.
    pub closed spec fn spec_offset(&self) -> nat {
        self.scroll_offset as nat
    }

    /// At most `MAX_LINES` lines are kept, and the pane is never scrolled
    /// past its first line.
    pub closed spec fn wf(&self) -> bool {
        &&& self.max_lines == MAX_LINES
        &&& self.lines@.len() <= MAX_LINES
        &&& self.scroll_offset <= spec_max_offset(self.lines@.len())
    }

    /// An empty pane titled `title`, at the bottom.
    pub fn new(title: &'static str) -> (r: AgentTerminal)
        ensures
            r.wf(),
            r.spec_title() == title@,
            r.spec_lines() == Seq::<Seq<char>>::empty(),
            r.spec_offset() == 0,
    {
        let r = AgentTerminal { title, lines: Vec::new(), max_lines: MAX_LINES, scroll_offset: 0 };
        assert(r.lines.deep_view() =~= Seq::<Seq<char>>::empty());
        r
    }

    /// Appends a line, dropping the oldest beyond `MAX_LINES`; the scroll
    /// offset stays within the lines.
    pub fn push_line(&mut self, line: String)
        requires
            old(self).wf(),
        ensures
            final(self).wf(),
            final(self).spec_title() == old(self).spec_title(),
            final(self).spec_lines() == spec_keep_last(old(self).spec_lines().push(line@), MAX_LINES as nat),
            final(self).spec_offset() == if old(self).spec_offset() <= spec_max_offset(
                final(self).spec_lines().len(),
            ) {
                old(self).spec_offset()
            } else {
                spec_max_offset(final(self).spec_lines().len())
            },
    {
        let ghost pushed = self.lines.deep_view().push(line@);
        self.lines.push(line);
        assert(self.lines.deep_view() =~= pushed);
        if self.lines.len() > self.max_lines {
            let from = self.lines.len() - self.max_lines;
            let mut kept: Vec<String> = Vec::new();
            let mut i = from;
            while i < self.lines.len()
                invariant
                    from <= i <= self.lines@.len(),
                    self.lines.deep_view() == pushed,
                    kept.deep_view() == pushed.subrange(from as int, i as int),
                decreases self.lines@.len() - i,
            {
                let c = self.lines[i].clone();
                assert(pushed[i as int] == self.lines@[i as int]@);
                let ghost before = kept.deep_view();
                kept.push(c);
                proof {
                    assert(kept.deep_view() =~= before.push(c@));
                    assert(kept.deep_view() =~= pushed.subrange(from as int, i + 1));
                }
                i = i + 1;
            }
            self.lines = kept;
        }
        self.clamp_scroll();
    }

    /// The pane shows nothing yet.
    pub fn is_empty(&self) -> (r: bool)
        ensures
            r == (self.spec_lines().len() == 0),
    {
        self.lines.len() == 0
    }

    /// The pane's title.
    pub fn title(&self) -> (r: &'static str)
        ensures
            r@ == self.spec_title(),
    {
        self.title
    }

    /// All lines, joined by newlines.
    pub fn full_text(&self) -> (r: String)
        ensures
            r@ == spec_join(self.spec_lines(), "\n"@),
    {
        join_strings(self.lines.as_slice(), "\n")
    }

    /// Scrolls back by `amount` lines, no further than the first line.
    pub fn scroll_up(&mut self, amount: usize)
        requires
            old(self).wf(),
        ensures
            final(self).wf(),
            final(self).spec_lines() == old(self).spec_lines(),
            final(self).spec_title() == old(self).spec_title(),
            final(self).spec_offset() == if old(self).spec_offset() + amount <= spec_max_offset(
                old(self).spec_lines().len(),
            ) {
                (old(self).spec_offset() + amount) as nat
            } else {
                spec_max_offset(old(self).spec_lines().len())
            },
    {
        self.scroll_offset = self.scroll_offset.saturating_add(amount);
        self.clamp_scroll();
    }

    /// Scrolls forward by `amount` lines, no further than the bottom.
    pub fn scroll_down(&mut self, amount: usize)
        requires
            old(self).wf(),
        ensures
            final(self).wf(),
            final(self).spec_lines() == old(self).spec_lines(),
            final(self).spec_title() == old(self).spec_title(),
            final(self).spec_offset() == if old(self).spec_offset() >= amount {
                (old(self).spec_offset() - amount) as nat
            } else {
                0
            },
    {
        self.scroll_offset = self.scroll_offset.saturating_sub(amount);
    }

    /// Scrolls back to the first line.
    pub fn scroll_top(&mut self)
        requires
            old(self).wf(),
        ensures
            final(self).wf(),
            final(self).spec_lines() == old(self).spec_lines(),
            final(self).spec_title() == old(self).spec_title(),
            final(self).spec_offset() == spec_max_offset(old(self).spec_lines().len()),
    {
        self.scroll_offset = self.lines.len().saturating_sub(1);
    }

    /// Goes back to the bottom.
    pub fn scroll_bottom(&mut self)
        requires
            old(self).wf(),
        ensures
            final(self).wf(),
            final(self).spec_lines() == old(self).spec_lines(),
            final(self).spec_title() == old(self).spec_title(),
            final(self).spec_offset() == 0,
    {
        self.scroll_offset = 0;
    }

    /// Brings the offset back within the lines.
    fn clamp_scroll(&mut self)
        requires
            old(self).max_lines == MAX_LINES,
            old(self).lines@.len() <= MAX_LINES,
        ensures
            final(self).wf(),
            final(self).lines == old(self).lines,
            final(self).title == old(self).title,
            final(self).scroll_offset == if old(self).scroll_offset <= spec_max_offset(old(self).lines@.len()) {
                old(self).scroll_offset as nat
            } else {
                spec_max_offset(old(self).lines@.len())
            },
    {
        let max = self.lines.len().saturating_sub(1);
        if self.scroll_offset > max {
            self.scroll_offset = max;
        }
    }

    /// The pane's title line: a dot when focused, the title, and how far it
    /// is scrolled back when it is.
    pub fn panel_title(&self, focused: bool) -> (r: String)
        ensures
            r@ == " "@ + (if focused {
                "● "@
            } else {
                ""@
            }) + self.spec_title() + (if self.spec_offset() > 0 {
                " +"@ + spec_decimal(self.spec_offset()) + " "@
            } else {
                ""@
            }) + " "@,
    {
        let mut s = String::from_str(" ");
        if focused {
            push_str(&mut s, "● ");
        } else {
            push_str(&mut s, "");
        }
        push_str(&mut s, self.title);
        if self.scroll_offset > 0 {
            push_str(&mut s, " +");
            push_decimal(&mut s, self.scroll_offset as u64);
            push_str(&mut s, " ");
        } else {
            push_str(&mut s, "");
        }
        push_str(&mut s, " ");
        s
    }

    /// The first line shown in a pane `height` rows high (two rows are the
    /// border): the view ends `offset` lines above the last line.
    pub fn top_line(&self, height: u16) -> (r: u16)
        ensures
            ({
                let visible: int = if height >= 3 { height - 2 } else { 1 };
                let text = if self.spec_lines().len() == 0 {
                    PLACEHOLDER@
                } else {
                    spec_join(self.spec_lines(), "\n"@)
                };
                let total = spec_lines(text).len() as int;
                let top = if total > visible + self.spec_offset() { total - visible - self.spec_offset() } else { 0 };
                r as int == if top > 65535 { 65535 } else { top }
            }),
    {
        let visible: usize = if height >= 3 { (height - 2) as usize } else { 1 };
        let text = if self.lines.len() == 0 {
            String::from_str(PLACEHOLDER)
        } else {
            self.full_text()
        };
        let cs = chars_of(text.as_str());
        let ls = lines(&cs);
        let total = ls.len();
        let shown = visible.saturating_add(self.scroll_offset);
        let top = total.saturating_sub(shown);
        if top > 65535 {
            65535
        } else {
            top as u16
        }
    }
}

/// What an empty pane shows.
pub const PLACEHOLDER: &'static str = "Aguardando saída do agente.";

/// The pane a raw log line belongs to, recognised by its lower-cased text:
/// planning turn headers name the Architect or the Revisor; the Auditor's
/// and the Dev's status lines have fixed openings.
pub open spec fn spec_classify(lower: Seq<char>) -> Option<AgentTerminalRole> {
    if spec_contains(lower, "══ turno"@) && spec_contains(lower, "| architect "@) {
        Some(AgentTerminalRole::Architect)
    } else if spec_contains(lower, "══ turno"@) && spec_contains(lower, "| revisor "@) {
        Some(AgentTerminalRole::Revisor)
    } else if spec_starts_with(lower, "⏳ ia auditora"@) || spec_starts_with(lower, "✔ auditora"@)
        || spec_starts_with(lower, "❌ json inválido da auditora"@) || spec_starts_with(
        lower,
        "❌ resposta inválida da auditora"@,
    ) {
        Some(AgentTerminalRole::Auditor)
    } else if spec_starts_with(lower, "⏳ ia dev"@) || spec_starts_with(lower, "✔ dev"@) || spec_starts_with(
        lower,
        "📋 plano:"@,
    ) || spec_starts_with(lower, "diff aprovado"@) {
        Some(AgentTerminalRole::Dev)
    } else {
        None
    }
}

/// Which agent's pane a raw log line belongs to, if any.
pub fn classify_agent_line(line: &str) -> (r: Option<AgentTerminalRole>)
    ensures
        r == spec_classify(unicode_lowercase(line@)),
{
    let lower = to_lowercase(line);
    let l = lower.as_str();
    if str_contains(l, "══ turno") && str_contains(l, "| architect ") {
        Some(AgentTerminalRole::Architect)
    } else if str_contains(l, "══ turno") && str_contains(l, "| revisor ") {
        Some(AgentTerminalRole::Revisor)
    } else if str_starts_with(l, "⏳ ia auditora") || str_starts_with(l, "✔ auditora") || str_starts_with(
        l,
        "❌ json inválido da auditora",
    ) || str_starts_with(l, "❌ resposta inválida da auditora") {
        Some(AgentTerminalRole::Auditor)
    } else if str_starts_with(l, "⏳ ia dev") || str_starts_with(l, "✔ dev") || str_starts_with(l, "📋 plano:")
        || str_starts_with(l, "diff aprovado") {
        Some(AgentTerminalRole::Dev)
    } else {
        None
    }
}

/// Whatever is done to a pane, it keeps at most `MAX_LINES` lines and is
/// never scrolled past its first line; a pushed line is always the last one
/// shown.
pub proof fn law_pane_bounds(t: AgentTerminal, line: Seq<char>)
    requires
        t.wf(),
    ensures
        spec_keep_last(t.spec_lines().push(line), MAX_LINES as nat).len() <= MAX_LINES,
        spec_keep_last(t.spec_lines().push(line), MAX_LINES as nat).last() == line,
{
}

} // verus!

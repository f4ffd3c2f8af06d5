//! The UI's whole state and what each key does in each screen, and how the
//! messages of a background job move the UI. Drawing, reading keys and
//! running the jobs belong to the program around this library.

use std::collections::VecDeque;

use vstd::prelude::*;

use crate::kernel::db::ProjectSummary;
use crate::kernel::stream::{GateDecision, LineOrigin, LogEvent};
use crate::kernel::text::{push_str, str_eq};
use crate::schemas::PlanSummary;
use crate::tui::agent_terminal::{spec_keep_last, AgentTerminalRole};
use crate::tui::dashboard::{handle_key, DashboardCmd, DashboardState, DashboardUiState};
use crate::tui::running::{ExecState, MAX_LOG_LINES};
use crate::tui::home::{spec_home_selected, HomeState, MENU_LEN};
use crate::tui::memory::{spec_memory_selected, MemoryFocus, MemoryViewState};
use crate::tui::plan_selector::SelectorState;
use crate::tui::prompt::{spec_fresh_form, spec_prompt_wf, PromptNext, PromptState};
use crate::tui::{AppView, Key, LoopCmd, SelectorCtx};

verus! {

broadcast use vstd::string::group_string_axioms;

/// The UI's state.
#[derive(Debug)]
pub struct TuiState {
    pub view: AppView,
    pub home: HomeState,
    pub selector: SelectorState,
    pub selector_ctx: SelectorCtx,
    pub dash_data: DashboardState,
    pub dash_ui: DashboardUiState,
    pub memory_view: MemoryViewState,
    pub plans: Vec<PlanSummary>,
    pub summary: ProjectSummary,
    pub home_memory: String,
    pub running: ExecState,
}

/// The menu entry a key on the home screen chooses: a digit from `1` to `6`
/// chooses its entry, Enter the one under the cursor.
pub open spec fn spec_menu_choice(key: Key, selected: nat) -> Option<nat> {
    match key {
        Key::Enter => Some(selected),
        Key::Char(c) => if '1' <= c <= '6' {
            Some(((c as int) - ('1' as int)) as nat)
        } else {
            None
        },
        _ => None,
    }
}

/// What the background job's message asks of the main loop.
#[derive(Debug, Clone, Copy, PartialEq, Eq)]
pub enum Drain {
    /// Keep reading messages.
    Keep,
    /// Stop reading for now: a gate waits for the human.
    Stop,
    /// The job is done: back home, with the summary and plans reloaded.
    Finished,
    /// The job failed: its error is on screen.
    Failed,
}

/// What a key does on the home screen (`dispatch_home`), from state `s` to
/// state `t` with answer `r`.
pub open spec fn spec_home_keys(s: TuiState, t: TuiState, key: Key, r: LoopCmd) -> bool {
    &&& t.view == s.view
    &&& key == Key::Char('q') || key == Key::Esc ==> r == LoopCmd::Quit
    &&& key == Key::Char('r') ==> r == LoopCmd::ReloadMemoryFeed
    &&& key == Key::Up || key == Key::Down ==> r == LoopCmd::Continue
    &&& ({
        let ch = spec_menu_choice(key, spec_home_selected(s.home));
        &&& ch == Some(0nat) ==> (r matches LoopCmd::GoTo(AppView::Prompt(ps)) && spec_fresh_form(
            ps,
            "Novo Plano"@,
            PromptNext::NewPlan,
        ))
        &&& ch == Some(1nat) ==> r == LoopCmd::GoTo(AppView::Selector(SelectorCtx::ForContinue))
            && t.selector_ctx == SelectorCtx::ForContinue
        &&& ch == Some(2nat) ==> r == LoopCmd::GoTo(AppView::Selector(SelectorCtx::ForDev))
            && t.selector_ctx == SelectorCtx::ForDev
        &&& ch == Some(3nat) ==> r == LoopCmd::GoTo(AppView::Selector(SelectorCtx::ForDashboard))
            && t.selector_ctx == SelectorCtx::ForDashboard
        &&& ch == Some(4nat) ==> r == LoopCmd::OpenMemory
        &&& (ch matches Some(n) && n >= 5) ==> r == LoopCmd::Quit
    })
}

/// What a key does in the plan picker (`dispatch_selector`).
pub open spec fn spec_selector_keys(s: TuiState, t: TuiState, key: Key, r: LoopCmd) -> bool {
    &&& t.view == s.view
    &&& key == Key::Char('q') || key == Key::Esc ==> r == LoopCmd::GoTo(AppView::Home)
    &&& key == Key::Enter ==> match s.selector.selected {
        Some(i) => if i < s.plans@.len() {
            let id = s.plans@[i as int].id;
            match s.selector_ctx {
                SelectorCtx::ForDashboard => r == LoopCmd::LoadDashboard(id),
                SelectorCtx::ForContinue => r matches LoopCmd::GoTo(AppView::Prompt(ps))
                    && spec_fresh_form(ps, "Continuar Planejamento"@, PromptNext::ContinuePlanning { plan_id: id }),
                SelectorCtx::ForDev => r matches LoopCmd::GoTo(AppView::Prompt(ps))
                    && spec_fresh_form(ps, "Executar Modo Dev"@, PromptNext::DevMode { plan_id: id }),
            }
        } else {
            r == LoopCmd::Continue
        },
        None => r == LoopCmd::Continue,
    }
}

/// What a key does on the dashboard (`dispatch_dashboard`).
pub open spec fn spec_dashboard_keys(s: TuiState, t: TuiState, key: Key, r: LoopCmd) -> bool {
    &&& t.view == s.view
    &&& key == Key::Char('q') || key == Key::Esc ==> r == LoopCmd::GoTo(AppView::Home)
    &&& key == Key::Char('r') ==> r == LoopCmd::ReloadDashboard
}

/// What a key does in the memory browser (`dispatch_memory`).
pub open spec fn spec_memory_keys(s: TuiState, t: TuiState, key: Key, r: LoopCmd) -> bool {
    &&& t.view == s.view
    &&& key == Key::Char('q') || key == Key::Esc ==> r == LoopCmd::GoTo(AppView::Home)
    &&& key == Key::Char('s') && s.memory_view.focus == MemoryFocus::List ==> r == LoopCmd::StartScan
    &&& key == Key::Char('r') && s.memory_view.focus == MemoryFocus::List ==> r == LoopCmd::OpenMemory
    &&& key == Key::Enter ==> if s.memory_view.focus == MemoryFocus::List && spec_memory_selected(
        s.memory_view,
    ) < s.memory_view.pages@.len() {
        r matches LoopCmd::ReadMemoryPage(p) && p@ == s.memory_view.pages@[spec_memory_selected(
            s.memory_view,
        ) as int].0@
    } else {
        r == LoopCmd::Continue
    }
}

/// What a key does in a form (`dispatch_prompt`).
pub open spec fn spec_prompt_keys(s: TuiState, t: TuiState, key: Key, r: LoopCmd) -> bool {
    &&& s.view is Prompt && key == Key::Esc ==> r == LoopCmd::GoTo(AppView::Home)
    &&& !(s.view is Prompt) ==> r == LoopCmd::Continue
}

/// What a key does on the running screen (`dispatch_executing`).
pub open spec fn spec_executing_keys(s: TuiState, t: TuiState, key: Key, r: LoopCmd) -> bool {
    &&& t.view == s.view
    &&& key == Key::Char('q') || key == Key::Esc ==> r == LoopCmd::GoTo(AppView::Home)
    &&& key == Key::Char('y') ==> r == LoopCmd::CopyPane(s.running.spec_focused())
}

/// The keys that work on the panes of the running screen and of a gate.
pub open spec fn spec_pane_key(key: Key) -> bool {
    key == Key::Tab || key == Key::Char('v') || key == Key::Up || key == Key::Char('k')
        || key == Key::Down || key == Key::Char('j') || key == Key::PageUp || key == Key::PageDown
        || key == Key::Char('g') || key == Key::Char('G') || key == Key::Char('y')
}

/// What a key does at a gate (`dispatch_gate`).
pub open spec fn spec_gate_keys(s: TuiState, t: TuiState, key: Key, r: LoopCmd) -> bool {
    &&& t.view == s.view
    &&& !spec_pane_key(key) ==> if s.running.gate_type@ == "planning"@ {
        if key == Key::Enter || key == Key::Char('e') {
            r matches LoopCmd::GoTo(AppView::Prompt(ps)) && spec_fresh_form(ps, "Enriquecer Plano"@, PromptNext::GateEnrich)
        } else if key == Key::Char('c') || key == Key::Char('f') {
            r == LoopCmd::GateDecide(GateDecision::Finalize)
        } else if key == Key::Char('r') && s.running.has_planning_revisor {
            r == LoopCmd::GateDecide(GateDecision::Review)
        } else if key == Key::Char('a') {
            r == LoopCmd::GateDecide(GateDecision::Abort)
        } else {
            r == LoopCmd::Continue
        }
    } else {
        if key == Key::Char('c') || key == Key::Enter {
            r == LoopCmd::GateDecide(GateDecision::Continue)
        } else if key == Key::Char('e') {
            r matches LoopCmd::GoTo(AppView::Prompt(ps)) && spec_fresh_form(ps, "Enriquecer Plano"@, PromptNext::GateEnrich)
        } else if key == Key::Char('f') {
            r == LoopCmd::GateDecide(GateDecision::Finalize)
        } else if key == Key::Char('a') || key == Key::Esc {
            r == LoopCmd::GateDecide(GateDecision::Abort)
        } else {
            r == LoopCmd::Continue
        }
    }
}

/// A message after which the drain goes on reading.
pub open spec fn spec_keeps_reading(e: LogEvent) -> bool {
    e is Line || e is AgentLine || e is PlanningReady
}

/// What a message that stops the drain answers.
pub open spec fn spec_stop_of(e: LogEvent) -> Drain {
    match e {
        LogEvent::GateNeeded { .. } => Drain::Stop,
        LogEvent::Done => Drain::Finished,
        LogEvent::Failed(_) => Drain::Failed,
        _ => Drain::Keep,
    }
}

/// The screen after the message that stopped the drain: a gate shows its
/// question, the end goes home, a failure stays on the running screen with
/// its error as the last line of the log.
pub open spec fn spec_stop_effect(t: TuiState, e: LogEvent) -> bool {
    match e {
        LogEvent::GateNeeded { content, gate_type } => t.view == AppView::Gate && t.running.gate_content
            == Some(content) && t.running.gate_type == gate_type,
        LogEvent::Done => t.view == AppView::Home,
        LogEvent::Failed(err) => t.view == AppView::Executing && t.running.lines@.len() > 0
            && t.running.lines@.last()@ == "ERRO: "@ + err@,
        _ => true,
    }
}

impl TuiState {
    /// The state is consistent: the running screen's panes are well formed
    /// and an open form matches its kind.
    pub open spec fn wf(&self) -> bool {
        &&& self.running.wf()
        &&& (self.view matches AppView::Prompt(ps) ==> spec_prompt_wf(ps))
    }

    /// The UI as it opens: the home screen, nothing running.
    pub fn new(summary: ProjectSummary, plans: Vec<PlanSummary>, home_memory: String) -> (r: TuiState)
        ensures
            r.wf(),
            r.view == AppView::Home,
            r.home.selected == Some(0usize),
            r.selector_ctx == SelectorCtx::ForDashboard,
            r.plans == plans,
            r.summary == summary,
            r.home_memory == home_memory,
    {
        let selector = SelectorState::new(plans.len());
        TuiState {
            view: AppView::Home,
            home: HomeState::new(),
            selector,
            selector_ctx: SelectorCtx::ForDashboard,
            dash_data: DashboardState::default(),
            dash_ui: DashboardUiState::new(0),
            memory_view: MemoryViewState::new(Vec::new()),
            plans,
            summary,
            home_memory,
            running: ExecState::new(String::new()),
        }
    }

    /// Routes a key to the current screen's handler.
    pub fn dispatch_key(&mut self, key: Key) -> (r: LoopCmd)
        requires
            old(self).wf(),
        ensures
            final(self).wf(),
            match old(self).view {
                AppView::Home => spec_home_keys(*old(self), *final(self), key, r),
                AppView::Selector(_) => spec_selector_keys(*old(self), *final(self), key, r),
                AppView::Dashboard => spec_dashboard_keys(*old(self), *final(self), key, r),
                AppView::Memory => spec_memory_keys(*old(self), *final(self), key, r),
                AppView::Prompt(_) => spec_prompt_keys(*old(self), *final(self), key, r),
                AppView::Executing => spec_executing_keys(*old(self), *final(self), key, r),
                AppView::Gate => spec_gate_keys(*old(self), *final(self), key, r),
            },
    {
        match &self.view {
            AppView::Home => self.dispatch_home(key),
            AppView::Selector(_) => self.dispatch_selector(key),
            AppView::Dashboard => self.dispatch_dashboard(key),
            AppView::Memory => self.dispatch_memory(key),
            AppView::Prompt(_) => self.dispatch_prompt(key),
            AppView::Executing => self.dispatch_executing(key),
            AppView::Gate => self.dispatch_gate(key),
        }
    }

    /// The home screen: `q` and Esc quit, `r` reloads the memory feed, the
    /// arrows move the cursor, and Enter or a digit opens an entry.
    pub fn dispatch_home(&mut self, key: Key) -> (r: LoopCmd)
        requires
            old(self).wf(),
        ensures
            final(self).wf(),
            final(self).view == old(self).view,
            key == Key::Char('q') || key == Key::Esc ==> r == LoopCmd::Quit,
            key == Key::Char('r') ==> r == LoopCmd::ReloadMemoryFeed,
            key == Key::Up || key == Key::Down ==> r == LoopCmd::Continue,
            ({
                let ch = spec_menu_choice(key, spec_home_selected(old(self).home));
                &&& ch == Some(0nat) ==> (r matches LoopCmd::GoTo(AppView::Prompt(ps)) && spec_fresh_form(
                    ps,
                    "Novo Plano"@,
                    PromptNext::NewPlan,
                ))
                &&& ch == Some(1nat) ==> r == LoopCmd::GoTo(AppView::Selector(SelectorCtx::ForContinue))
                    && final(self).selector_ctx == SelectorCtx::ForContinue
                &&& ch == Some(2nat) ==> r == LoopCmd::GoTo(AppView::Selector(SelectorCtx::ForDev))
                    && final(self).selector_ctx == SelectorCtx::ForDev
                &&& ch == Some(3nat) ==> r == LoopCmd::GoTo(AppView::Selector(SelectorCtx::ForDashboard))
                    && final(self).selector_ctx == SelectorCtx::ForDashboard
                &&& ch == Some(4nat) ==> r == LoopCmd::OpenMemory
                &&& (ch matches Some(n) && n >= 5) ==> r == LoopCmd::Quit
            }),
    {
        let idx: usize = match key {
            Key::Char('q') | Key::Esc => {
                return LoopCmd::Quit;
            },
            Key::Char('r') => {
                return LoopCmd::ReloadMemoryFeed;
            },
            Key::Up => {
                self.home.move_up();
                return LoopCmd::Continue;
            },
            Key::Down => {
                self.home.move_down();
                return LoopCmd::Continue;
            },
            Key::Enter => self.home.selected(),
            Key::Char(c) => {
                if '1' <= c && c <= '6' {
                    (c as u32 - '1' as u32) as usize
                } else {
                    return LoopCmd::Continue;
                }
            },
            _ => {
                return LoopCmd::Continue;
            },
        };
        if idx == 0 {
            LoopCmd::GoTo(AppView::Prompt(PromptState::for_new_plan()))
        } else if idx == 1 {
            self.selector = SelectorState::new(self.plans.len());
            self.selector_ctx = SelectorCtx::ForContinue;
            LoopCmd::GoTo(AppView::Selector(SelectorCtx::ForContinue))
        } else if idx == 2 {
            self.selector = SelectorState::new(self.plans.len());
            self.selector_ctx = SelectorCtx::ForDev;
            LoopCmd::GoTo(AppView::Selector(SelectorCtx::ForDev))
        } else if idx == 3 {
            self.selector = SelectorState::new(self.plans.len());
            self.selector_ctx = SelectorCtx::ForDashboard;
            LoopCmd::GoTo(AppView::Selector(SelectorCtx::ForDashboard))
        } else if idx == 4 {
            LoopCmd::OpenMemory
        } else {
            LoopCmd::Quit
        }
    }

    /// The plan picker: `q` and Esc go home, the arrows move, Enter opens the
    /// picked plan for what the picker was opened for.
    pub fn dispatch_selector(&mut self, key: Key) -> (r: LoopCmd)
        requires
            old(self).wf(),
        ensures
            final(self).wf(),
            final(self).view == old(self).view,
            key == Key::Char('q') || key == Key::Esc ==> r == LoopCmd::GoTo(AppView::Home),
            key == Key::Enter ==> match old(self).selector.selected {
                Some(i) => if i < old(self).plans@.len() {
                    let id = old(self).plans@[i as int].id;
                    match old(self).selector_ctx {
                        SelectorCtx::ForDashboard => r == LoopCmd::LoadDashboard(id),
                        SelectorCtx::ForContinue => r matches LoopCmd::GoTo(AppView::Prompt(ps))
                            && spec_fresh_form(ps, "Continuar Planejamento"@, PromptNext::ContinuePlanning { plan_id: id }),
                        SelectorCtx::ForDev => r matches LoopCmd::GoTo(AppView::Prompt(ps))
                            && spec_fresh_form(ps, "Executar Modo Dev"@, PromptNext::DevMode { plan_id: id }),
                    }
                } else {
                    r == LoopCmd::Continue
                },
                None => r == LoopCmd::Continue,
            },
    {
        match key {
            Key::Char('q') | Key::Esc => LoopCmd::GoTo(AppView::Home),
            Key::Up => {
                self.selector.move_up();
                LoopCmd::Continue
            },
            Key::Down => {
                let n = self.plans.len();
                self.selector.move_down(n);
                LoopCmd::Continue
            },
            Key::Enter => {
                let picked = self.selector.pick(self.plans.as_slice());
                match picked {
                    None => LoopCmd::Continue,
                    Some(plan) => {
                        let plan_id = plan.id.clone();
                        match self.selector_ctx {
                            SelectorCtx::ForDashboard => LoopCmd::LoadDashboard(plan_id),
                            SelectorCtx::ForContinue => LoopCmd::GoTo(
                                AppView::Prompt(PromptState::for_continue(plan_id)),
                            ),
                            SelectorCtx::ForDev => LoopCmd::GoTo(AppView::Prompt(PromptState::for_dev(plan_id))),
                        }
                    },
                }
            },
            _ => LoopCmd::Continue,
        }
    }

    /// The dashboard: its own keys, going home on `q` or Esc.
    pub fn dispatch_dashboard(&mut self, key: Key) -> (r: LoopCmd)
        requires
            old(self).wf(),
        ensures
            final(self).wf(),
            final(self).view == old(self).view,
            key == Key::Char('q') || key == Key::Esc ==> r == LoopCmd::GoTo(AppView::Home),
            key == Key::Char('r') ==> r == LoopCmd::ReloadDashboard,
    {
        match handle_key(key, &mut self.dash_ui, &self.dash_data) {
            DashboardCmd::Stay => LoopCmd::Continue,
            DashboardCmd::Back => LoopCmd::GoTo(AppView::Home),
            DashboardCmd::Reload => LoopCmd::ReloadDashboard,
            DashboardCmd::LoadMemory(run_id) => LoopCmd::LoadMemory(run_id),
        }
    }

    /// The memory browser: `q` and Esc go home, Tab switches panels, the
    /// arrows move in the list or scroll the page, Enter reads the page under
    /// the cursor, `g` goes to the page's top, and in the list `s` syncs and
    /// `r` refreshes.
    pub fn dispatch_memory(&mut self, key: Key) -> (r: LoopCmd)
        requires
            old(self).wf(),
        ensures
            final(self).wf(),
            final(self).view == old(self).view,
            key == Key::Char('q') || key == Key::Esc ==> r == LoopCmd::GoTo(AppView::Home),
            key == Key::Char('s') && old(self).memory_view.focus == MemoryFocus::List ==> r == LoopCmd::StartScan,
            key == Key::Char('r') && old(self).memory_view.focus == MemoryFocus::List ==> r == LoopCmd::OpenMemory,
            key == Key::Enter ==> if old(self).memory_view.focus == MemoryFocus::List && spec_memory_selected(
                old(self).memory_view,
            ) < old(self).memory_view.pages@.len() {
                r matches LoopCmd::ReadMemoryPage(p) && p@ == old(self).memory_view.pages@[spec_memory_selected(
                    old(self).memory_view,
                ) as int].0@
            } else {
                r == LoopCmd::Continue
            },
    {
        match key {
            Key::Char('q') | Key::Esc => LoopCmd::GoTo(AppView::Home),
            Key::Tab => {
                self.memory_view.toggle_focus();
                LoopCmd::Continue
            },
            Key::Up | Key::Char('k') => {
                match self.memory_view.focus {
                    MemoryFocus::List => self.memory_view.move_up(),
                    MemoryFocus::Content => self.memory_view.scroll_up(),
                }
                LoopCmd::Continue
            },
            Key::Down | Key::Char('j') => {
                match self.memory_view.focus {
                    MemoryFocus::List => self.memory_view.move_down(),
                    MemoryFocus::Content => self.memory_view.scroll_down(),
                }
                LoopCmd::Continue
            },
            Key::Enter => match self.memory_view.focus {
                MemoryFocus::List => match self.memory_view.selected_path() {
                    Some(p) => LoopCmd::ReadMemoryPage(String::from_str(p)),
                    None => LoopCmd::Continue,
                },
                MemoryFocus::Content => LoopCmd::Continue,
            },
            Key::Char('g') => {
                self.memory_view.scroll_top();
                LoopCmd::Continue
            },
            Key::Char('s') => match self.memory_view.focus {
                MemoryFocus::List => LoopCmd::StartScan,
                MemoryFocus::Content => LoopCmd::Continue,
            },
            Key::Char('r') => match self.memory_view.focus {
                MemoryFocus::List => LoopCmd::OpenMemory,
                MemoryFocus::Content => LoopCmd::Continue,
            },
            _ => LoopCmd::Continue,
        }
    }

    /// A form: Esc cancels to the home screen, Backspace erases, a character
    /// is typed, Enter confirms the field.
    pub fn dispatch_prompt(&mut self, key: Key) -> (r: LoopCmd)
        requires
            old(self).wf(),
        ensures
            final(self).wf(),
            old(self).view is Prompt && key == Key::Esc ==> r == LoopCmd::GoTo(AppView::Home),
            !(old(self).view is Prompt) ==> r == LoopCmd::Continue,
    {
        let mut view = AppView::Home;
        std::mem::swap(&mut view, &mut self.view);
        let r = match view {
            AppView::Prompt(mut ps) => {
                let r = match key {
                    Key::Esc => LoopCmd::GoTo(AppView::Home),
                    Key::Backspace => {
                        ps.backspace();
                        LoopCmd::Continue
                    },
                    Key::Char(c) => {
                        ps.type_char(c);
                        LoopCmd::Continue
                    },
                    Key::Enter => ps.enter(),
                    _ => LoopCmd::Continue,
                };
                self.view = AppView::Prompt(ps);
                r
            },
            other => {
                self.view = other;
                LoopCmd::Continue
            },
        };
        r
    }

    /// The keys that work on the running screen and at a gate alike: Tab
    /// moves the focus, `v` splits the panes, the arrows (`k`/`j`) and the
    /// page keys scroll, `g`/`G` jump to the top or the bottom, and `y`
    /// copies the focused pane. `None` when the key is not one of them.
    fn pane_key(&mut self, key: Key) -> (r: Option<LoopCmd>)
        requires
            old(self).wf(),
        ensures
            final(self).wf(),
            final(self).view == old(self).view,
            key == Key::Char('y') ==> r == Some(LoopCmd::CopyPane(old(self).running.spec_focused())),
            (r is None) <==> !(key == Key::Tab || key == Key::Char('v') || key == Key::Up || key == Key::Char('k')
                || key == Key::Down || key == Key::Char('j') || key == Key::PageUp || key == Key::PageDown
                || key == Key::Char('g') || key == Key::Char('G') || key == Key::Char('y')),
            r is Some && key != Key::Char('y') ==> r == Some(LoopCmd::Continue),
            r is None ==> final(self).running == old(self).running,
    {
        match key {
            Key::Tab => {
                self.running.cycle_focus();
                Some(LoopCmd::Continue)
            },
            Key::Char('v') => {
                self.running.toggle_split_panes();
                Some(LoopCmd::Continue)
            },
            Key::Up | Key::Char('k') => {
                self.running.scroll_focused_up(1);
                Some(LoopCmd::Continue)
            },
            Key::Down | Key::Char('j') => {
                self.running.scroll_focused_down(1);
                Some(LoopCmd::Continue)
            },
            Key::PageUp => {
                self.running.scroll_focused_up(10);
                Some(LoopCmd::Continue)
            },
            Key::PageDown => {
                self.running.scroll_focused_down(10);
                Some(LoopCmd::Continue)
            },
            Key::Char('g') => {
                self.running.scroll_focused_top();
                Some(LoopCmd::Continue)
            },
            Key::Char('G') => {
                self.running.scroll_focused_bottom();
                Some(LoopCmd::Continue)
            },
            Key::Char('y') => Some(LoopCmd::CopyPane(self.running.focused_role())),
            _ => None,
        }
    }

    /// The running screen: `q` and Esc go home; the pane keys work.
    pub fn dispatch_executing(&mut self, key: Key) -> (r: LoopCmd)
        requires
            old(self).wf(),
        ensures
            final(self).wf(),
            final(self).view == old(self).view,
            key == Key::Char('q') || key == Key::Esc ==> r == LoopCmd::GoTo(AppView::Home),
            key == Key::Char('y') ==> r == LoopCmd::CopyPane(old(self).running.spec_focused()),
    {
        match key {
            Key::Char('q') | Key::Esc => LoopCmd::GoTo(AppView::Home),
            _ => match self.pane_key(key) {
                Some(c) => c,
                None => LoopCmd::Continue,
            },
        }
    }

    /// A gate: the pane keys work; at a planning gate Enter and `e` open the
    /// notes form, `c` and `f` finish planning, `r` asks the Revisor (when
    /// there is one) and `a` aborts; at any other gate `c` and Enter go on,
    /// `e` opens the notes form, `f` finishes and `a` and Esc abort.
    pub fn dispatch_gate(&mut self, key: Key) -> (r: LoopCmd)
        requires
            old(self).wf(),
        ensures
            final(self).wf(),
            final(self).view == old(self).view,
            ({
                let pane = key == Key::Tab || key == Key::Char('v') || key == Key::Up || key == Key::Char('k')
                    || key == Key::Down || key == Key::Char('j') || key == Key::PageUp || key == Key::PageDown
                    || key == Key::Char('g') || key == Key::Char('G') || key == Key::Char('y');
                !pane ==> if old(self).running.gate_type@ == "planning"@ {
                    if key == Key::Enter || key == Key::Char('e') {
                        r matches LoopCmd::GoTo(AppView::Prompt(ps)) && spec_fresh_form(ps, "Enriquecer Plano"@, PromptNext::GateEnrich)
                    } else if key == Key::Char('c') || key == Key::Char('f') {
                        r == LoopCmd::GateDecide(GateDecision::Finalize)
                    } else if key == Key::Char('r') && old(self).running.has_planning_revisor {
                        r == LoopCmd::GateDecide(GateDecision::Review)
                    } else if key == Key::Char('a') {
                        r == LoopCmd::GateDecide(GateDecision::Abort)
                    } else {
                        r == LoopCmd::Continue
                    }
                } else {
                    if key == Key::Char('c') || key == Key::Enter {
                        r == LoopCmd::GateDecide(GateDecision::Continue)
                    } else if key == Key::Char('e') {
                        r matches LoopCmd::GoTo(AppView::Prompt(ps)) && spec_fresh_form(ps, "Enriquecer Plano"@, PromptNext::GateEnrich)
                    } else if key == Key::Char('f') {
                        r == LoopCmd::GateDecide(GateDecision::Finalize)
                    } else if key == Key::Char('a') || key == Key::Esc {
                        r == LoopCmd::GateDecide(GateDecision::Abort)
                    } else {
                        r == LoopCmd::Continue
                    }
                }
            }),
    {
        match self.pane_key(key) {
            Some(c) => {
                return c;
            },
            None => {},
        }
        if str_eq(self.running.gate_type.as_str(), "planning") {
            match key {
                Key::Enter | Key::Char('e') => LoopCmd::GoTo(AppView::Prompt(PromptState::for_enrich())),
                Key::Char('c') | Key::Char('f') => LoopCmd::GateDecide(GateDecision::Finalize),
                Key::Char('r') => if self.running.has_planning_revisor {
                    LoopCmd::GateDecide(GateDecision::Review)
                } else {
                    LoopCmd::Continue
                },
                Key::Char('a') => LoopCmd::GateDecide(GateDecision::Abort),
                _ => LoopCmd::Continue,
            }
        } else {
            match key {
                Key::Char('c') | Key::Enter => LoopCmd::GateDecide(GateDecision::Continue),
                Key::Char('e') => LoopCmd::GoTo(AppView::Prompt(PromptState::for_enrich())),
                Key::Char('f') => LoopCmd::GateDecide(GateDecision::Finalize),
                Key::Char('a') | Key::Esc => LoopCmd::GateDecide(GateDecision::Abort),
                _ => LoopCmd::Continue,
            }
        }
    }

    /// The human decided: the pending question is cleared and the running
    /// screen comes back.
    pub fn gate_decided(&mut self)
        requires
            old(self).wf(),
        ensures
            final(self).wf(),
            final(self).view == AppView::Executing,
            final(self).running.gate_content is None,
    {
        self.running.gate_content = None;
        self.view = AppView::Executing;
    }

    /// Messages are read only while work runs on screen.
    pub fn drains(&self) -> (r: bool)
        ensures
            r == (self.view == AppView::Executing || self.view == AppView::Gate),
    {
        match self.view {
            AppView::Executing | AppView::Gate => true,
            _ => false,
        }
    }

    /// Takes one message of the background job: lines are logged; a gate
    /// shows its question; the end goes home; a failure stays on the
    /// running screen with the error logged.
    pub fn on_log_event(&mut self, event: LogEvent) -> (r: Drain)
        requires
            old(self).wf(),
        ensures
            final(self).wf(),
            match event {
                LogEvent::Line(line) => r == Drain::Keep && final(self).view == old(self).view
                    && final(self).running.lines.deep_view() == spec_keep_last(
                        old(self).running.lines.deep_view().push(line@),
                        MAX_LOG_LINES as nat,
                    ),
                LogEvent::AgentLine { text, origin } => r == Drain::Keep && final(self).view == old(self).view
                    && ({
                        let role = match origin {
                            LineOrigin::Architect => AgentTerminalRole::Architect,
                            LineOrigin::Revisor => AgentTerminalRole::Revisor,
                            LineOrigin::Dev => AgentTerminalRole::Dev,
                            LineOrigin::Auditor => AgentTerminalRole::Auditor,
                        };
                        &&& final(self).running.active_role == Some(role)
                        &&& final(self).running.spec_terminal(role).spec_lines() == spec_keep_last(
                            old(self).running.spec_terminal(role).spec_lines().push(text@),
                            250,
                        )
                    }),
                LogEvent::PlanningReady { .. } => r == Drain::Keep && final(self).view == old(self).view
                    && final(self).running == old(self).running,
                LogEvent::GateNeeded { content, gate_type } => r == Drain::Stop && final(self).view == AppView::Gate
                    && final(self).running.gate_content == Some(content) && final(self).running.gate_type == gate_type
                    && final(self).running.lines == old(self).running.lines,
                LogEvent::Done => r == Drain::Finished && final(self).view == AppView::Home
                    && final(self).running == old(self).running,
                LogEvent::Failed(e) => r == Drain::Failed && final(self).view == AppView::Executing
                    && final(self).running.lines.deep_view() == spec_keep_last(
                        old(self).running.lines.deep_view().push("ERRO: "@ + e@),
                        MAX_LOG_LINES as nat,
                    ),
            },
    {
        match event {
            LogEvent::Line(s) => {
                self.running.push_line(s);
                Drain::Keep
            },
            LogEvent::AgentLine { text, origin } => {
                let role = AgentTerminalRole::from_origin(origin);
                self.running.push_agent_line(text, role);
                Drain::Keep
            },
            LogEvent::PlanningReady { .. } => Drain::Keep,
            LogEvent::GateNeeded { content, gate_type } => {
                self.running.gate_content = Some(content);
                self.running.gate_type = gate_type;
                self.view = AppView::Gate;
                Drain::Stop
            },
            LogEvent::Done => {
                self.view = AppView::Home;
                Drain::Finished
            },
            LogEvent::Failed(e) => {
                self.running.push_error(e.as_str());
                self.view = AppView::Executing;
                Drain::Failed
            },
        }
    }

    /// Reads queued messages of the background job in order, each as
    /// `on_log_event` takes it, and stops after the first gate, end or
    /// failure; the messages after it stay queued. `Keep` when the queue ran
    /// out with only lines read.
    pub fn drain_events(&mut self, queue: &mut VecDeque<LogEvent>) -> (r: Drain)
        requires
            old(self).wf(),
        ensures
            final(self).wf(),
            ({
                let q = old(queue)@;
                let k = q.len() - final(queue)@.len();
                &&& 0 <= k <= q.len()
                &&& final(queue)@ == q.skip(k)
                &&& r == Drain::Keep ==> k == q.len() && final(self).view == old(self).view && forall|j: int|
                    0 <= j < k ==> spec_keeps_reading(#[trigger] q[j])
                &&& r != Drain::Keep ==> k >= 1 && (forall|j: int| 0 <= j < k - 1 ==> spec_keeps_reading(#[trigger] q[j]))
                    && !spec_keeps_reading(q[k - 1]) && r == spec_stop_of(q[k - 1]) && spec_stop_effect(
                    *final(self),
                    q[k - 1],
                )
            }),
    {
        let ghost q0 = queue@;
        let ghost v0 = self.view;
        loop
            invariant
                self.wf(),
                q0 == old(queue)@,
                v0 == old(self).view,
                self.view == v0,
                queue@.len() <= q0.len(),
                queue@ == q0.skip(q0.len() - queue@.len()),
                forall|j: int| 0 <= j < q0.len() - queue@.len() ==> spec_keeps_reading(#[trigger] q0[j]),
            decreases queue@.len(),
        {
            let ghost before = queue@;
            match queue.pop_front() {
                None => {
                    return Drain::Keep;
                },
                Some(ev) => {
                    let ghost e = ev;
                    proof {
                        let k = q0.len() - before.len();
                        assert(before[0] == q0[k]);
                        assert(queue@ =~= q0.skip(k + 1));
                    }
                    let d = self.on_log_event(ev);
                    match d {
                        Drain::Keep => {
                            assert(spec_keeps_reading(e));
                        },
                        _ => {
                            proof {
                                if let LogEvent::Failed(err) = e {
                                    let l = self.running.lines@;
                                    assert(self.running.lines.deep_view().len() > 0);
                                    assert(l.last()@ == self.running.lines.deep_view().last());
                                }
                            }
                            return d;
                        },
                    }
                },
            }
        }
    }

    /// The background job went away without a word: the UI goes home unless
    /// an error is on screen, in which case it stays for the human to read.
    pub fn on_worker_gone(&mut self)
        requires
            old(self).wf(),
        ensures
            final(self).wf(),
            final(self).view == (if exists|i: int|
                0 <= i < old(self).running.lines@.len() && crate::tui::running::spec_error_line(
                    #[trigger] old(self).running.lines@[i]@,
                ) {
                old(self).view
            } else {
                AppView::Home
            }),
    {
        if self.running.has_errors() {
            self.running.push_line(String::from_str("(thread finalizada — leia os erros acima e pressione q)"));
        } else {
            self.view = AppView::Home;
        }
    }
}

} // verus!

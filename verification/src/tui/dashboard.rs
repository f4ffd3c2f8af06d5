//! The plan dashboard: the data it shows, its cursor over the audit feed,
//! its keys and the progress line. Loading the data and drawing belong to
//! the program around this library.

use vstd::prelude::*;

use crate::kernel::db::EventRow;
use crate::kernel::text::{push_decimal, push_signed_decimal, push_str, spec_decimal, spec_signed_decimal, str_eq};
use crate::schemas::Task;
use crate::tui::home::{progress_bar, spec_bar, spec_prefix};
use crate::tui::Key;

verus! {

broadcast use vstd::string::group_string_axioms;

/// What the dashboard shows: the plan, its tasks and its recent events
/// (oldest first).
#[derive(Debug)]
pub struct DashboardState {
    pub plan_id: String,
    pub plan_title: String,
    pub tasks: Vec<Task>,
    pub recent_events: Vec<EventRow>,
}

impl Default for DashboardState {
    /// Nothing loaded.
    fn default() -> (r: Self)
        ensures
            r.plan_id@.len() == 0,
            r.plan_title@.len() == 0,
            r.tasks@.len() == 0,
            r.recent_events@.len() == 0,
    {
        DashboardState {
            plan_id: String::new(),
            plan_title: String::new(),
            tasks: Vec::new(),
            recent_events: Vec::new(),
        }
    }
}

/// The dashboard's cursor over the audit feed (newest first on screen) and
/// the memory page loaded for the selected event.
#[derive(Debug, Clone, PartialEq, Eq)]
pub struct DashboardUiState {
    pub selected: Option<usize>,
    pub memory_content: Option<String>,
}

impl DashboardUiState {
    /// The cursor on the newest of `events` events, nothing loaded.
    pub fn new(events: usize) -> (r: DashboardUiState)
        ensures
            r.selected == (if events > 0 { Some(0usize) } else { None }),
            r.memory_content is None,
    {
        DashboardUiState { selected: if events > 0 { Some(0) } else { None }, memory_content: None }
    }

    /// Back to the newest event after a reload.
    pub fn reset(&mut self, events: usize)
        ensures
            final(self).selected == (if events > 0 { Some(0usize) } else { None }),
            final(self).memory_content is None,
    {
        self.selected = if events > 0 { Some(0) } else { None };
        self.memory_content = None;
    }
}

/// What a key on the dashboard asks for.
#[derive(Debug, Clone, PartialEq, Eq)]
pub enum DashboardCmd {
    /// Nothing to do.
    Stay,
    Back,
    Reload,
    /// Load the memory page of this run.
    LoadMemory(String),
}

/// The event shown at screen row `i` (the feed is newest first).
pub open spec fn spec_event_at_row(len: nat, i: nat) -> int {
    if len >= 1 + i {
        len - 1 - i
    } else {
        0
    }
}

/// What a key does on the dashboard: `q` and Esc go back, `r` reloads, the
/// arrows move the cursor within the feed, Enter loads the memory page of
/// the selected event's run.
pub fn handle_key(key: Key, ui: &mut DashboardUiState, data: &DashboardState) -> (r: DashboardCmd)
    ensures
        final(ui).memory_content == old(ui).memory_content,
        match key {
            Key::Char('q') | Key::Esc => r == DashboardCmd::Back && final(ui).selected == old(ui).selected,
            Key::Char('r') => r == DashboardCmd::Reload && final(ui).selected == old(ui).selected,
            Key::Up => r == DashboardCmd::Stay && final(ui).selected == (match old(ui).selected {
                Some(s) => if s > 0 { Some((s - 1) as usize) } else { Some(s) },
                None => None,
            }),
            Key::Down => r == DashboardCmd::Stay && final(ui).selected == (match old(ui).selected {
                Some(s) => if s + 1 < data.recent_events@.len() { Some((s + 1) as usize) } else { Some(s) },
                None => None,
            }),
            Key::Enter => final(ui).selected == old(ui).selected && match old(ui).selected {
                Some(s) => {
                    let idx = spec_event_at_row(data.recent_events@.len(), s as nat);
                    if idx < data.recent_events@.len() {
                        r matches DashboardCmd::LoadMemory(run) && run@ == data.recent_events@[idx].run_id@
                    } else {
                        r == DashboardCmd::Stay
                    }
                },
                None => r == DashboardCmd::Stay,
            },
            _ => r == DashboardCmd::Stay && final(ui).selected == old(ui).selected,
        },
{
    match key {
        Key::Char('q') | Key::Esc => DashboardCmd::Back,
        Key::Char('r') => DashboardCmd::Reload,
        Key::Up => {
            match ui.selected {
                Some(s) => if s > 0 {
                    ui.selected = Some(s - 1);
                },
                None => {},
            }
            DashboardCmd::Stay
        },
        Key::Down => {
            match ui.selected {
                Some(s) => if s < data.recent_events.len() && s + 1 < data.recent_events.len() {
                    ui.selected = Some(s + 1);
                },
                None => {},
            }
            DashboardCmd::Stay
        },
        Key::Enter => match ui.selected {
            Some(s) => {
                let len = data.recent_events.len();
                let idx = if s < len { len - 1 - s } else { 0 };
                if idx < len {
                    DashboardCmd::LoadMemory(data.recent_events[idx].run_id.clone())
                } else {
                    DashboardCmd::Stay
                }
            },
            None => DashboardCmd::Stay,
        },
        _ => DashboardCmd::Stay,
    }
}

/// How many tasks are completed.
pub open spec fn spec_completed(tasks: Seq<Task>) -> nat
    decreases tasks.len(),
{
    if tasks.len() == 0 {
        0
    } else {
        spec_completed(tasks.drop_last()) + if tasks.last().status@ == "completed"@ {
            1nat
        } else {
            0nat
        }
    }
}

/// The dashboard's progress line.
pub open spec fn spec_progress(tasks: Seq<Task>) -> Seq<char> {
    let total = tasks.len();
    let done = spec_completed(tasks);
    if total == 0 {
        "Sem tarefas"@
    } else {
        "Progresso: ["@ + spec_bar(done * 20 / total) + "] "@ + spec_decimal(done * 100 / total) + "% ("@
            + spec_decimal(done) + "/"@ + spec_decimal(total) + ")"@
    }
}

/// Builds the progress line: a bar of twenty cells and the share of
/// completed tasks.
pub fn compute_progress(tasks: &[Task]) -> (r: String)
    requires
        tasks@.len() * 100 <= usize::MAX,
    ensures
        r@ == spec_progress(tasks@),
{
    let total = tasks.len();
    if total == 0 {
        return String::from_str("Sem tarefas");
    }
    let mut done: usize = 0;
    let mut i: usize = 0;
    while i < total
        invariant
            i <= total,
            total == tasks@.len(),
            done == spec_completed(tasks@.take(i as int)),
            done <= i,
        decreases total - i,
    {
        assert(tasks@.take(i + 1).drop_last() =~= tasks@.take(i as int));
        if str_eq(tasks[i].status.as_str(), "completed") {
            done = done + 1;
        }
        i = i + 1;
    }
    assert(tasks@.take(total as int) =~= tasks@);
    let pct = (done * 100) / total;
    let filled = (done * 20) / total;
    let mut s = String::from_str("Progresso: [");
    let bar = progress_bar(filled);
    push_str(&mut s, bar.as_str());
    push_str(&mut s, "] ");
    push_decimal(&mut s, pct as u64);
    push_str(&mut s, "% (");
    push_decimal(&mut s, done as u64);
    push_str(&mut s, "/");
    push_decimal(&mut s, total as u64);
    push_str(&mut s, ")");
    s
}

/// The symbol in front of a task on the dashboard.
pub fn task_symbol(status: &str) -> (r: &'static str)
    ensures
        r@ == (if status@ == "completed"@ {
            "✅"@
        } else if status@ == "in_progress"@ {
            "⏳"@
        } else if status@ == "blocked"@ {
            "[!]"@
        } else {
            "[ ]"@
        }),
{
    if str_eq(status, "completed") {
        "✅"
    } else if str_eq(status, "in_progress") {
        "⏳"
    } else if str_eq(status, "blocked") {
        "[!]"
    } else {
        "[ ]"
    }
}

/// The completed count never exceeds the number of tasks, so the bar never
/// overflows and the share never passes a hundred.
pub proof fn law_progress_within_bounds(tasks: Seq<Task>)
    ensures
        spec_completed(tasks) <= tasks.len(),
        tasks.len() > 0 ==> spec_completed(tasks) * 20 / tasks.len() <= 20 && spec_completed(tasks) * 100
            / tasks.len() <= 100,
    decreases tasks.len(),
{
    if tasks.len() > 0 {
        law_progress_within_bounds(tasks.drop_last());
        let n = tasks.len() as int;
        let d = spec_completed(tasks) as int;
        assert(d * 20 / n <= 20) by (nonlinear_arith)
            requires
                0 <= d <= n,
                n > 0,
        {
            assert(d * 20 <= n * 20);
        }
        assert(d * 100 / n <= 100) by (nonlinear_arith)
            requires
                0 <= d <= n,
                n > 0,
        {
            assert(d * 100 <= n * 100);
        }
    }
}

// ── The audit feed and the memory panel ────────────────────────────────────

/// A text, or `or` when there is none.
pub open spec fn spec_or(o: Option<String>, or: Seq<char>) -> Seq<char> {
    match o {
        Some(t) => t@,
        None => or,
    }
}

/// Appends the first `n` characters of `t` (all of it when shorter).
fn push_prefix(s: &mut String, t: &str, n: usize)
    ensures
        final(s)@ == old(s)@ + spec_prefix(t@, n as nat),
{
    let len = t.unicode_len();
    let limit: usize = if len > n { n } else { len };
    let mut k: usize = 0;
    while k < limit
        invariant
            k <= limit,
            limit <= t@.len(),
            limit == (if t@.len() > n { n as nat } else { t@.len() }),
            s@ == old(s)@ + t@.take(k as int),
        decreases limit - k,
    {
        let c = t.get_char(k);
        crate::kernel::text::push_char(s, c);
        assert(s@ =~= old(s)@ + t@.take(k + 1));
        k = k + 1;
    }
    assert(t@.take(limit as int) =~= spec_prefix(t@, n as nat));
}

/// Appends a text, or `or` when there is none.
fn push_or(s: &mut String, o: &Option<String>, or: &str)
    ensures
        final(s)@ == old(s)@ + spec_or(*o, or@),
{
    match o {
        Some(t) => push_str(s, t.as_str()),
        None => push_str(s, or),
    }
}

/// A line of the audit feed: the time to the minute, who wrote, and the
/// event's summary.
pub open spec fn spec_feed_line(ev: EventRow) -> Seq<char> {
    "["@ + spec_prefix(ev.timestamp@, 16) + "] "@ + spec_or(ev.from_agent, "-"@) + " → "@
        + spec_or(ev.content_summary, Seq::empty())
}

/// Builds a line of the audit feed.
pub fn feed_line(ev: &EventRow) -> (r: String)
    ensures
        r@ == spec_feed_line(*ev),
{
    let mut s = String::from_str("[");
    push_prefix(&mut s, ev.timestamp.as_str(), 16);
    push_str(&mut s, "] ");
    push_or(&mut s, &ev.from_agent, "-");
    push_str(&mut s, " → ");
    push_or(&mut s, &ev.content_summary, "");
    proof {
        reveal_strlit("");
    }
    s
}

/// The event under the feed's cursor: row `i` (newest first) shows event
/// `spec_event_at_row(len, i)`; nothing when no row is selected or there is
/// no event.
pub open spec fn spec_selected_event(events: Seq<EventRow>, selected: Option<usize>) -> Option<EventRow> {
    match selected {
        Some(i) => if events.len() > 0 {
            Some(events[spec_event_at_row(events.len(), i as nat)])
        } else {
            None
        },
        None => None,
    }
}

/// The head of the memory panel for an event: its number, kind, sender and
/// receiver, time to the second and summary.
pub open spec fn spec_event_head(ev: EventRow) -> Seq<char> {
    "── Evento #"@ + spec_signed_decimal(ev.sequence as int) + " ──\nTipo : "@ + ev.event_type@ + "\nDe   : "@
        + spec_or(ev.from_agent, "-"@) + " → "@ + spec_or(ev.to_agent, "-"@) + "\nTs   : "@ + spec_prefix(
        ev.timestamp@,
        19,
    ) + "\n\n"@ + spec_or(ev.content_summary, "(sem resumo)"@) + "\n────────────────\n\n"@
}

/// What the memory panel shows: the selected event and the hand-off loaded
/// for it, or how to load it, or how to select an event.
pub open spec fn spec_memory_panel(events: Seq<EventRow>, selected: Option<usize>, content: Option<Seq<char>>) -> Seq<char> {
    match spec_selected_event(events, selected) {
        Some(ev) => spec_event_head(ev) + match content {
            Some(c) => c,
            None => "Enter → carregar handoff do ai-memory"@,
        },
        None => "Selecione um evento com ↑↓\nEnter → carregar handoff do ai-memory\n\n(Fase 4.4 ativa)"@,
    }
}

/// Builds the memory panel's text for the dashboard's events, the row under
/// the cursor and the hand-off loaded, if any.
pub fn memory_panel_text(events: &Vec<EventRow>, selected: Option<usize>, content: Option<&str>) -> (r: String)
    ensures
        r@ == spec_memory_panel(events@, selected, match content {
            Some(c) => Some(c@),
            None => None,
        }),
{
    let len = events.len();
    let picked: Option<usize> = match selected {
        Some(i) => if len > 0 {
            Some(if len >= 1 && i <= len - 1 { len - 1 - i } else { 0 })
        } else {
            None
        },
        None => None,
    };
    match picked {
        Some(k) => {
            let ev = &events[k];
            assert(*ev == spec_selected_event(events@, selected)->0);
            let mut s = String::from_str("── Evento #");
            push_signed_decimal(&mut s, ev.sequence);
            push_str(&mut s, " ──\nTipo : ");
            push_str(&mut s, ev.event_type.as_str());
            push_str(&mut s, "\nDe   : ");
            push_or(&mut s, &ev.from_agent, "-");
            push_str(&mut s, " → ");
            push_or(&mut s, &ev.to_agent, "-");
            push_str(&mut s, "\nTs   : ");
            push_prefix(&mut s, ev.timestamp.as_str(), 19);
            push_str(&mut s, "\n\n");
            push_or(&mut s, &ev.content_summary, "(sem resumo)");
            push_str(&mut s, "\n────────────────\n\n");
            assert(s@ =~= spec_event_head(*ev));
            match content {
                Some(c) => push_str(&mut s, c),
                None => push_str(&mut s, "Enter → carregar handoff do ai-memory"),
            }
            s
        },
        None => String::from_str("Selecione um evento com ↑↓\nEnter → carregar handoff do ai-memory\n\n(Fase 4.4 ativa)"),
    }
}

} // verus!

//! The home screen: its menu and the project's status panel.

use vstd::prelude::*;

use crate::kernel::db::ProjectSummary;
use crate::kernel::text::{push_decimal, push_str, spec_decimal};

verus! {

broadcast use vstd::string::group_string_axioms;

/// How many entries the menu has.
pub const MENU_LEN: usize = 6;

/// The menu's entries: label and description.
pub open spec fn spec_menu_items() -> Seq<(Seq<char>, Seq<char>)> {
    seq![
        ("1. Novo Plano"@, "Cria um novo plano com o Arquiteto"@),
        ("2. Continuar Planejamento"@, "Retoma uma sessão de planejamento em andamento"@),
        ("3. Executar Modo Dev"@, "Executa as tarefas de um plano aprovado"@),
        ("4. Abrir Dashboard"@, "Visualiza progresso e auditoria em tempo real"@),
        ("5. Sincronizar Histórico"@, "Ingere páginas do ai-memory no banco de auditoria"@),
        ("6. Sair"@, "Encerra o AI Orchestrator"@),
    ]
}

/// The menu entry at `i`: label and description.
pub fn menu_item(i: usize) -> (r: (&'static str, &'static str))
    requires
        i < MENU_LEN,
    ensures
        r.0@ == spec_menu_items()[i as int].0,
        r.1@ == spec_menu_items()[i as int].1,
{
    if i == 0 {
        ("1. Novo Plano", "Cria um novo plano com o Arquiteto")
    } else if i == 1 {
        ("2. Continuar Planejamento", "Retoma uma sessão de planejamento em andamento")
    } else if i == 2 {
        ("3. Executar Modo Dev", "Executa as tarefas de um plano aprovado")
    } else if i == 3 {
        ("4. Abrir Dashboard", "Visualiza progresso e auditoria em tempo real")
    } else if i == 4 {
        ("5. Sincronizar Histórico", "Ingere páginas do ai-memory no banco de auditoria")
    } else {
        ("6. Sair", "Encerra o AI Orchestrator")
    }
}

/// The menu's cursor.
#[derive(Debug, Clone, PartialEq, Eq)]
pub struct HomeState {
    pub selected: Option<usize>,
}

/// The entry the cursor is on (the first when none is marked).
pub open spec fn spec_home_selected(s: HomeState) -> nat {
    match s.selected {
        Some(i) => i as nat,
        None => 0,
    }
}

impl HomeState {
    /// The cursor on the first entry.
    pub fn new() -> (r: HomeState)
        ensures
            r.selected == Some(0usize),
    {
        HomeState { selected: Some(0) }
    }

    /// The entry the cursor is on.
    pub fn selected(&self) -> (r: usize)
        ensures
            r == spec_home_selected(*self),
    {
        match self.selected {
            Some(i) => i,
            None => 0,
        }
    }

    /// Moves the cursor up, staying on the first entry.
    pub fn move_up(&mut self)
        ensures
            spec_home_selected(*old(self)) > 0 ==> final(self).selected == Some(
                (spec_home_selected(*old(self)) - 1) as usize,
            ),
            spec_home_selected(*old(self)) == 0 ==> *final(self) == *old(self),
    {
        let i = self.selected();
        if i > 0 {
            self.selected = Some(i - 1);
        }
    }

    /// Moves the cursor down, staying on the last entry.
    pub fn move_down(&mut self)
        ensures
            spec_home_selected(*old(self)) + 1 < MENU_LEN ==> final(self).selected == Some(
                (spec_home_selected(*old(self)) + 1) as usize,
            ),
            spec_home_selected(*old(self)) + 1 >= MENU_LEN ==> *final(self) == *old(self),
    {
        let i = self.selected();
        if i < MENU_LEN - 1 {
            self.selected = Some(i + 1);
        }
    }
}

/// A progress bar of twenty cells: the first `filled` full, the rest empty.
pub open spec fn spec_bar(filled: nat) -> Seq<char> {
    Seq::new(20, |i: int| if i < filled { '█' } else { '░' })
}

/// Builds the twenty-cell progress bar.
pub fn progress_bar(filled: usize) -> (r: String)
    ensures
        r@ == spec_bar(filled as nat),
{
    let mut s = String::new();
    let mut i: usize = 0;
    while i < 20
        invariant
            i <= 20,
            s@ == spec_bar(filled as nat).take(i as int),
        decreases 20 - i,
    {
        let c = if i < filled { '█' } else { '░' };
        crate::kernel::text::push_char(&mut s, c);
        assert(s@ =~= spec_bar(filled as nat).take(i + 1));
        i = i + 1;
    }
    assert(spec_bar(filled as nat).take(20) =~= spec_bar(filled as nat));
    s
}

/// The tasks line of the status panel.
pub open spec fn spec_tasks_line(completed: nat, total: nat) -> Seq<char> {
    if total > 0 {
        "["@ + spec_bar(completed * 20 / total) + "] "@ + spec_decimal(completed * 100 / total) + "%  ("@
            + spec_decimal(completed) + "/"@ + spec_decimal(total) + ")"@
    } else {
        "Sem tarefas registradas"@
    }
}

/// The tasks line of the status panel: a bar and the share of completed
/// tasks, or a note that there are none.
pub fn tasks_line(completed: usize, total: usize) -> (r: String)
    requires
        completed * 100 <= usize::MAX,
    ensures
        r@ == spec_tasks_line(completed as nat, total as nat),
{
    if total == 0 {
        return String::from_str("Sem tarefas registradas");
    }
    let pct = (completed * 100) / total;
    let filled = (completed * 20) / total;
    let mut s = String::from_str("[");
    let bar = progress_bar(filled);
    push_str(&mut s, bar.as_str());
    push_str(&mut s, "] ");
    push_decimal(&mut s, pct as u64);
    push_str(&mut s, "%  (");
    push_decimal(&mut s, completed as u64);
    push_str(&mut s, "/");
    push_decimal(&mut s, total as u64);
    push_str(&mut s, ")");
    s
}

/// The first `n` characters of `s` (all of it when shorter).
pub open spec fn spec_prefix(s: Seq<char>, n: nat) -> Seq<char> {
    if s.len() > n {
        s.take(n as int)
    } else {
        s
    }
}

/// The status panel's text for the project summary, under the description
/// of the menu entry the cursor is on.
pub open spec fn spec_status_text(selected_desc: Seq<char>, s: ProjectSummary) -> Seq<char> {
    selected_desc + "\n\n── Projeto ─────────────────────────────\n\n  Último Plano    "@ + (if s.last_plan_title@.len()
        == 0 {
        "Nenhum plano criado ainda"@
    } else {
        s.last_plan_title@ + " ("@ + s.last_plan_status@ + ")"@
    }) + "\n  Total de Planos  "@ + spec_decimal(s.plans_count as nat)
        + "\n\n── Tarefas ──────────────────────────────\n\n  "@ + spec_tasks_line(
        s.tasks_completed as nat,
        s.tasks_total as nat,
    ) + "\n\n── Último Run ───────────────────────────\n\n  "@ + (if s.last_run_at@.len() == 0 {
        "Nenhum run registrado"@
    } else {
        spec_prefix(s.last_run_at@, 19)
    })
}

/// Builds the status panel's text. The last run's timestamp is cut to its
/// first nineteen characters (date and time to the second).
pub fn status_text(state: &HomeState, summary: &ProjectSummary) -> (r: String)
    requires
        summary.tasks_completed * 100 <= usize::MAX,
    ensures
        r@ == spec_status_text(
            if spec_home_selected(*state) < MENU_LEN {
                spec_menu_items()[spec_home_selected(*state) as int].1
            } else {
                Seq::empty()
            },
            *summary,
        ),
{
    let i = state.selected();
    let mut s = if i < MENU_LEN {
        String::from_str(menu_item(i).1)
    } else {
        String::new()
    };
    push_str(&mut s, "\n\n── Projeto ─────────────────────────────\n\n  Último Plano    ");
    if summary.last_plan_title.unicode_len() == 0 {
        push_str(&mut s, "Nenhum plano criado ainda");
    } else {
        push_str(&mut s, summary.last_plan_title.as_str());
        push_str(&mut s, " (");
        push_str(&mut s, summary.last_plan_status.as_str());
        push_str(&mut s, ")");
    }
    push_str(&mut s, "\n  Total de Planos  ");
    push_decimal(&mut s, summary.plans_count as u64);
    push_str(&mut s, "\n\n── Tarefas ──────────────────────────────\n\n  ");
    let t = tasks_line(summary.tasks_completed, summary.tasks_total);
    push_str(&mut s, t.as_str());
    push_str(&mut s, "\n\n── Último Run ───────────────────────────\n\n  ");
    let ghost desc = if spec_home_selected(*state) < MENU_LEN {
        spec_menu_items()[spec_home_selected(*state) as int].1
    } else {
        Seq::empty()
    };
    let ghost plan_part = if summary.last_plan_title@.len() == 0 {
        "Nenhum plano criado ainda"@
    } else {
        summary.last_plan_title@ + " ("@ + summary.last_plan_status@ + ")"@
    };
    assert(s@ =~= desc + "\n\n── Projeto ─────────────────────────────\n\n  Último Plano    "@ + plan_part
        + "\n  Total de Planos  "@ + spec_decimal(summary.plans_count as nat)
        + "\n\n── Tarefas ──────────────────────────────\n\n  "@ + spec_tasks_line(
        summary.tasks_completed as nat,
        summary.tasks_total as nat,
    ) + "\n\n── Último Run ───────────────────────────\n\n  "@);
    let n = summary.last_run_at.unicode_len();
    if n == 0 {
        push_str(&mut s, "Nenhum run registrado");
    } else {
        let mut k: usize = 0;
        let limit: usize = if n > 19 { 19 } else { n };
        let ghost before = s@;
        while k < limit
            invariant
                k <= limit,
                limit <= summary.last_run_at@.len(),
                limit == (if summary.last_run_at@.len() > 19 { 19 } else { summary.last_run_at@.len() }),
                s@ == before + summary.last_run_at@.take(k as int),
            decreases limit - k,
        {
            let c = summary.last_run_at.as_str().get_char(k);
            crate::kernel::text::push_char(&mut s, c);
            assert(s@ =~= before + summary.last_run_at@.take(k + 1));
            k = k + 1;
        }
        assert(summary.last_run_at@.take(limit as int) =~= spec_prefix(summary.last_run_at@, 19));
    }
    s
}

/// The cursor never leaves the menu.
pub proof fn law_cursor_stays_in_menu(s: HomeState)
    requires
        spec_home_selected(s) < MENU_LEN,
    ensures
        ({
            let up = if spec_home_selected(s) > 0 { (spec_home_selected(s) - 1) as nat } else { spec_home_selected(s) };
            let down = if spec_home_selected(s) + 1 < MENU_LEN { spec_home_selected(s) + 1 } else { spec_home_selected(s) };
            up < MENU_LEN && down < MENU_LEN
        }),
{
}

} // verus!

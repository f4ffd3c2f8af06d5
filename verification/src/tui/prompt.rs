//! The forms that collect a command's fields inside the terminal UI, one
//! field at a time.

use vstd::prelude::*;

use crate::kernel::stream::GateDecision;
use crate::kernel::text::{is_blank, push_char, push_decimal, push_str, spec_decimal, spec_trim};
use crate::tui::LoopCmd;

verus! {

broadcast use vstd::string::group_string_axioms;

/// One field of a form.
#[derive(Debug, Clone, Copy, PartialEq, Eq)]
pub struct PromptField {
    pub label: &'static str,
    pub optional: bool,
    /// What an empty answer stands for.
    pub default: Option<&'static str>,
}

/// What a completed form starts.
#[derive(Debug, Clone, PartialEq, Eq)]
pub enum PromptNext {
    ContinuePlanning { plan_id: String },
    NewPlan,
    GateEnrich,
    DevMode { plan_id: String },
    Setup,
}

/// A form: its title, its fields, the field being typed, what was typed so
/// far and the answers collected.
#[derive(Debug, Clone, PartialEq, Eq)]
pub struct PromptState {
    pub title: &'static str,
    pub fields: Vec<PromptField>,
    pub current: usize,
    pub buffer: String,
    pub collected: Vec<String>,
    pub next: PromptNext,
}

/// How many fields each kind of form has.
pub open spec fn spec_field_count(next: PromptNext) -> nat {
    match next {
        PromptNext::ContinuePlanning { .. } => 4,
        PromptNext::NewPlan => 1,
        PromptNext::GateEnrich => 1,
        PromptNext::DevMode { .. } => 2,
        PromptNext::Setup => 2,
    }
}

/// The value of a run of decimal digits.
pub open spec fn spec_digits_value(s: Seq<char>) -> nat
    decreases s.len(),
{
    if s.len() == 0 {
        0
    } else {
        spec_digits_value(s.drop_last()) * 10 + ((s.last() as int) - ('0' as int)) as nat
    }
}

/// Every character is an ASCII digit.
pub open spec fn spec_all_digits(s: Seq<char>) -> bool {
    forall|i: int| 0 <= i < s.len() ==> '0' <= #[trigger] s[i] <= '9'
}

/// What `str::parse::<usize>` gives: an optional `+`, then at least one
/// digit, and a value that fits.
pub open spec fn spec_parse_usize(s: Seq<char>) -> Option<usize> {
    let body = if s.len() > 0 && s[0] == '+' { s.skip(1) } else { s };
    if body.len() > 0 && spec_all_digits(body) && spec_digits_value(body) <= usize::MAX {
        Some(spec_digits_value(body) as usize)
    } else {
        None
    }
}

/// A digit run's value grows with the run.
proof fn lemma_digits_value_grows(s: Seq<char>, i: int)
    requires
        0 <= i <= s.len(),
        spec_all_digits(s),
    ensures
        spec_digits_value(s.take(i)) <= spec_digits_value(s),
    decreases s.len() - i,
{
    if i < s.len() {
        lemma_digits_value_grows(s, i + 1);
        assert(s.take(i + 1).drop_last() =~= s.take(i));
    } else {
        assert(s.take(i) =~= s);
    }
}

/// `str::parse::<usize>`.
pub fn parse_usize(s: &str) -> (r: Option<usize>)
    ensures
        r == spec_parse_usize(s@),
{
    let n = s.unicode_len();
    let start: usize = if n > 0 && s.get_char(0) == '+' { 1 } else { 0 };
    let ghost body = if s@.len() > 0 && s@[0] == '+' { s@.skip(1) } else { s@ };
    assert(body =~= s@.skip(start as int));
    if start >= n {
        return None;
    }
    let mut value: usize = 0;
    let mut i = start;
    while i < n
        invariant
            start <= i <= n,
            n == s@.len(),
            body == s@.skip(start as int),
            body == (if s@.len() > 0 && s@[0] == '+' { s@.skip(1) } else { s@ }),
            spec_all_digits(body.take(i - start)),
            value == spec_digits_value(body.take(i - start)),
        decreases n - i,
    {
        let c = s.get_char(i);
        let ghost k = i - start;
        assert(body[k] == c);
        if c < '0' || c > '9' {
            assert(!spec_all_digits(body));
            return None;
        }
        let d = (c as u32 - '0' as u32) as usize;
        assert(body.take(k + 1).drop_last() =~= body.take(k));
        assert(spec_all_digits(body.take(k + 1)));
        match value.checked_mul(10) {
            Some(v10) => match v10.checked_add(d) {
                Some(v) => {
                    assert(body.take(k + 1).last() == c);
                    value = v;
                },
                None => {
                    proof {
                        assert(body.take(k + 1).last() == c);
                        assert(spec_digits_value(body.take(k + 1)) == spec_digits_value(body.take(k)) * 10 + d);
                        if spec_all_digits(body) {
                            lemma_digits_value_grows(body, k + 1);
                        }
                    }
                    return None;
                },
            },
            None => {
                proof {
                    assert(body.take(k + 1).last() == c);
                    assert(spec_digits_value(body.take(k + 1)) == spec_digits_value(body.take(k)) * 10 + d);
                    if spec_all_digits(body) {
                        lemma_digits_value_grows(body, k + 1);
                    }
                }
                return None;
            },
        }
        i = i + 1;
    }
    assert(body.take(n - start) =~= body);
    Some(value)
}

/// The form's field count matches its kind, and the answers collected are
/// those of the fields already passed.
pub open spec fn spec_prompt_wf(p: PromptState) -> bool {
    &&& p.fields@.len() == spec_field_count(p.next)
    &&& p.current <= p.fields@.len()
    &&& p.collected@.len() == p.current
}

/// The command a completed form starts, from its answers.
pub open spec fn spec_submit(next: PromptNext, c: Seq<String>) -> LoopCmd {
    match next {
        PromptNext::ContinuePlanning { plan_id } => LoopCmd::StartPlanning {
            plan_id: plan_id,
            cli1: c[0],
            cli2: if c[1]@.len() == 0 { None } else { Some(c[1]) },
            initial_notes: c[2],
            max_turns: match spec_parse_usize(c[3]@) {
                Some(n) => n,
                None => 10,
            },
        },
        PromptNext::NewPlan => LoopCmd::CreatePlan { title: c[0] },
        PromptNext::GateEnrich => LoopCmd::GateDecide(GateDecision::Enrich(c[0])),
        PromptNext::DevMode { plan_id } => LoopCmd::StartDev { plan_id: plan_id, cli_dev: c[0], cli_audit: Some(c[1]) },
        PromptNext::Setup => LoopCmd::SaveSetup { dev_cli: c[0], audit_cli: Some(c[1]) },
    }
}

/// A form just opened for `next`, titled `title`.
pub open spec fn spec_fresh_form(ps: PromptState, title: Seq<char>, next: PromptNext) -> bool {
    &&& spec_prompt_wf(ps)
    &&& ps.title@ == title
    &&& ps.next == next
    &&& ps.current == 0
    &&& ps.buffer@.len() == 0
}

/// A one-field form.
fn single(title: &'static str, label: &'static str, next: PromptNext) -> (r: PromptState)
    ensures
        r.title == title,
        r.fields@ == seq![PromptField { label: label, optional: false, default: None }],
        r.current == 0,
        r.buffer@.len() == 0,
        r.collected@.len() == 0,
        r.next == next,
{
    let mut fields: Vec<PromptField> = Vec::new();
    fields.push(PromptField { label, optional: false, default: None });
    PromptState { title, fields, current: 0, buffer: String::new(), collected: Vec::new(), next }
}

/// The two fields that name the Dev's and the Auditor's CLIs.
fn agent_cli_fields() -> (r: Vec<PromptField>)
    ensures
        r@ == seq![
            PromptField { label: "CLI para a IA Dev (ex: gemini, codex)", optional: false, default: None },
            PromptField { label: "CLI para a Auditora (obrigatório)", optional: false, default: None },
        ],
{
    let mut fields: Vec<PromptField> = Vec::new();
    fields.push(PromptField { label: "CLI para a IA Dev (ex: gemini, codex)", optional: false, default: None });
    fields.push(PromptField { label: "CLI para a Auditora (obrigatório)", optional: false, default: None });
    assert(fields@ =~= seq![
        PromptField { label: "CLI para a IA Dev (ex: gemini, codex)", optional: false, default: None },
        PromptField { label: "CLI para a Auditora (obrigatório)", optional: false, default: None },
    ]);
    fields
}

impl PromptState {
    /// The form of a new plan: its title.
    pub fn for_new_plan() -> (r: PromptState)
        ensures
            spec_prompt_wf(r),
            r.title@ == "Novo Plano"@,
            r.fields@ == seq![PromptField { label: "Título do plano", optional: false, default: None }],
            r.next == PromptNext::NewPlan,
            r.current == 0 && r.buffer@.len() == 0,
    {
        single("Novo Plano", "Título do plano", PromptNext::NewPlan)
    }

    /// The form of dev mode on plan `plan_id`: the two agents' CLIs.
    pub fn for_dev(plan_id: String) -> (r: PromptState)
        ensures
            spec_prompt_wf(r),
            r.title@ == "Executar Modo Dev"@,
            r.next == (PromptNext::DevMode { plan_id: plan_id }),
            r.current == 0 && r.buffer@.len() == 0,
    {
        PromptState {
            title: "Executar Modo Dev",
            fields: agent_cli_fields(),
            current: 0,
            buffer: String::new(),
            collected: Vec::new(),
            next: PromptNext::DevMode { plan_id },
        }
    }

    /// The form of the notes that enrich a gate.
    pub fn for_enrich() -> (r: PromptState)
        ensures
            spec_prompt_wf(r),
            r.title@ == "Enriquecer Plano"@,
            r.fields@ == seq![PromptField { label: "Notas para a IA (instruções de ajuste)", optional: false, default: None }],
            r.next == PromptNext::GateEnrich,
            r.current == 0 && r.buffer@.len() == 0,
    {
        single("Enriquecer Plano", "Notas para a IA (instruções de ajuste)", PromptNext::GateEnrich)
    }

    /// The first-run form: the two agents' CLIs.
    pub fn for_setup() -> (r: PromptState)
        ensures
            spec_prompt_wf(r),
            r.title@ == "Configuração Inicial"@,
            r.next == PromptNext::Setup,
            r.current == 0 && r.buffer@.len() == 0,
    {
        PromptState {
            title: "Configuração Inicial",
            fields: agent_cli_fields(),
            current: 0,
            buffer: String::new(),
            collected: Vec::new(),
            next: PromptNext::Setup,
        }
    }

    /// The form that continues planning `plan_id`: the Architect's CLI, the
    /// optional Revisor's CLI, the opening briefing and the turn limit
    /// (ten unless given).
    pub fn for_continue(plan_id: String) -> (r: PromptState)
        ensures
            spec_prompt_wf(r),
            r.title@ == "Continuar Planejamento"@,
            r.fields@ == seq![
                PromptField { label: "CLI para o Arquiteto (ex: gemini, codex)", optional: false, default: None },
                PromptField { label: "CLI para o Revisor do plano (opcional; não implementa código)", optional: true, default: None },
                PromptField { label: "Briefing humano inicial para o Arquiteto", optional: false, default: None },
                PromptField { label: "Máximo de turnos", optional: false, default: Some("10") },
            ],
            r.next == (PromptNext::ContinuePlanning { plan_id: plan_id }),
            r.current == 0 && r.buffer@.len() == 0,
    {
        let mut fields: Vec<PromptField> = Vec::new();
        fields.push(PromptField { label: "CLI para o Arquiteto (ex: gemini, codex)", optional: false, default: None });
        fields.push(
            PromptField { label: "CLI para o Revisor do plano (opcional; não implementa código)", optional: true, default: None },
        );
        fields.push(PromptField { label: "Briefing humano inicial para o Arquiteto", optional: false, default: None });
        fields.push(PromptField { label: "Máximo de turnos", optional: false, default: Some("10") });
        PromptState {
            title: "Continuar Planejamento",
            fields,
            current: 0,
            buffer: String::new(),
            collected: Vec::new(),
            next: PromptNext::ContinuePlanning { plan_id },
        }
    }

    /// Which field is being typed, out of how many: `2/4`.
    pub fn progress(&self) -> (r: String)
        requires
            self.current < usize::MAX,
        ensures
            r@ == spec_decimal(self.current as nat + 1) + "/"@ + spec_decimal(self.fields@.len()),
    {
        let mut s = String::new();
        push_decimal(&mut s, (self.current + 1) as u64);
        push_str(&mut s, "/");
        push_decimal(&mut s, self.fields.len() as u64);
        s
    }

    /// Enter: an empty answer takes the field's default; a blank answer to a
    /// required field is refused (the form stays as it is); otherwise the
    /// answer is kept and the next field comes, or, after the last, the
    /// form's command.
    pub fn enter(&mut self) -> (r: LoopCmd)
        requires
            spec_prompt_wf(*old(self)),
        ensures
            spec_prompt_wf(*final(self)),
            old(self).current >= old(self).fields@.len() ==> r == LoopCmd::Continue && *final(self) == *old(self),
            old(self).current < old(self).fields@.len() ==> ({
                let f = old(self).fields@[old(self).current as int];
                let answer = if old(self).buffer@.len() == 0 && f.default is Some {
                    f.default->0@
                } else {
                    old(self).buffer@
                };
                if spec_trim(answer).len() == 0 && !f.optional {
                    &&& r == LoopCmd::Continue
                    &&& final(self).current == old(self).current
                    &&& final(self).collected == old(self).collected
                    &&& final(self).buffer@ == answer
                } else {
                    &&& final(self).current == old(self).current + 1
                    &&& final(self).collected@.len() == old(self).collected@.len() + 1
                    &&& final(self).collected@.take(old(self).current as int) == old(self).collected@
                    &&& final(self).collected@[old(self).current as int]@ == answer
                    &&& final(self).buffer@.len() == 0
                    &&& if final(self).current < final(self).fields@.len() {
                        r == LoopCmd::Continue
                    } else {
                        r == spec_submit(final(self).next, final(self).collected@)
                    }
                }
            }),
            final(self).fields == old(self).fields,
            final(self).next == old(self).next,
            final(self).title == old(self).title,
    {
        if self.current >= self.fields.len() {
            return LoopCmd::Continue;
        }
        let f = self.fields[self.current];
        if self.buffer.unicode_len() == 0 {
            match f.default {
                Some(d) => {
                    self.buffer = String::from_str(d);
                },
                None => {},
            }
        }
        if is_blank(self.buffer.as_str()) && !f.optional {
            return LoopCmd::Continue;
        }
        let answer = self.buffer.clone();
        let ghost before = self.collected@;
        self.collected.push(answer);
        assert(self.collected@.take(self.current as int) =~= before);
        self.buffer = String::new();
        self.current = self.current + 1;
        if self.current < self.fields.len() {
            return LoopCmd::Continue;
        }
        self.submit()
    }

    /// The command of the completed form.
    fn submit(&self) -> (r: LoopCmd)
        requires
            spec_prompt_wf(*self),
            self.current == self.fields@.len(),
        ensures
            r == spec_submit(self.next, self.collected@),
    {
        match &self.next {
            PromptNext::ContinuePlanning { plan_id } => {
                let cli2 = if self.collected[1].unicode_len() == 0 {
                    None
                } else {
                    Some(self.collected[1].clone())
                };
                let max_turns = match parse_usize(self.collected[3].as_str()) {
                    Some(n) => n,
                    None => 10,
                };
                LoopCmd::StartPlanning {
                    plan_id: plan_id.clone(),
                    cli1: self.collected[0].clone(),
                    cli2,
                    initial_notes: self.collected[2].clone(),
                    max_turns,
                }
            },
            PromptNext::NewPlan => LoopCmd::CreatePlan { title: self.collected[0].clone() },
            PromptNext::GateEnrich => LoopCmd::GateDecide(GateDecision::Enrich(self.collected[0].clone())),
            PromptNext::DevMode { plan_id } => LoopCmd::StartDev {
                plan_id: plan_id.clone(),
                cli_dev: self.collected[0].clone(),
                cli_audit: Some(self.collected[1].clone()),
            },
            PromptNext::Setup => LoopCmd::SaveSetup {
                dev_cli: self.collected[0].clone(),
                audit_cli: Some(self.collected[1].clone()),
            },
        }
    }

    /// Types a character.
    pub fn type_char(&mut self, c: char)
        ensures
            final(self).buffer@ == old(self).buffer@.push(c),
            final(self).current == old(self).current,
            final(self).collected == old(self).collected,
            final(self).fields == old(self).fields,
            final(self).next == old(self).next,
            final(self).title == old(self).title,
    {
        push_char(&mut self.buffer, c);
    }

    /// Erases the last character typed, if any.
    pub fn backspace(&mut self)
        ensures
            final(self).buffer@ == (if old(self).buffer@.len() > 0 {
                old(self).buffer@.drop_last()
            } else {
                old(self).buffer@
            }),
            final(self).current == old(self).current,
            final(self).collected == old(self).collected,
            final(self).fields == old(self).fields,
            final(self).next == old(self).next,
            final(self).title == old(self).title,
    {
        let n = self.buffer.unicode_len();
        if n > 0 {
            let kept = self.buffer.as_str().substring_char(0, n - 1);
            let mut s = String::new();
            push_str(&mut s, kept);
            assert(s@ =~= self.buffer@.drop_last());
            self.buffer = s;
        }
    }
}

} // verus!

//! Collaborative planning: the prompt each planning agent receives, and the
//! turn-taking between the Architect, the optional Revisor and the human's
//! gate. Calling the agents' CLIs and storing the turns belong to the
//! program around this library.

use vstd::prelude::*;

use crate::kernel::stream::GateDecision;
use crate::kernel::text::{is_blank, push_decimal, push_signed_decimal, push_str, spec_decimal, spec_signed_decimal, spec_trim, trim};
use crate::schemas::PlanTurn;

verus! {

broadcast use vstd::string::group_string_axioms;

/// The closing instructions of every planning prompt.
pub const PLANNING_TASK: &'static str = "Sua tarefa agora:\n- Analise cuidadosamente o histórico acima.\n- Contribua de forma estruturada e útil de acordo com seu papel.\n- Mantenha o foco no planejamento de alto nível (arquitetura, tarefas, decisões).\n\n- Não escreva código de implementação, não gere diff e não aplique mudanças.\n- Se faltar contexto humano, peça esclarecimento ou proponha perguntas objetivas.\n\n";

/// How one earlier turn appears in the planning prompt.
pub open spec fn spec_turn_block(t: PlanTurn) -> Seq<char> {
    "--- Turno "@ + spec_signed_decimal(t.sequence as int) + " | Agente: "@ + t.agent@ + " | "@ + t.timestamp@
        + "\nPrompt enviado:\n"@ + spec_trim(t.prompt@) + "\n\nResposta recebida:\n"@ + spec_trim(t.content@)
        + "\n\n"@
}

/// All earlier turns, in order.
pub open spec fn spec_turn_blocks(turns: Seq<PlanTurn>) -> Seq<char>
    decreases turns.len(),
{
    if turns.len() == 0 {
        Seq::empty()
    } else {
        spec_turn_blocks(turns.drop_last()) + spec_turn_block(turns.last())
    }
}

/// The prompt of the next planning turn for the agent playing `role`.
pub open spec fn spec_planning_prompt(turns: Seq<PlanTurn>, role: Seq<char>) -> Seq<char> {
    "Você é a IA **"@ + role + "** participando de um processo de planejamento colaborativo.\n\n"@ + if turns.len()
        == 0 {
        "Este é o primeiro turno do planejamento.\n\n"@
    } else {
        "Abaixo está o histórico completo dos turnos anteriores:\n\n"@ + spec_turn_blocks(turns)
    } + PLANNING_TASK@
}

/// Builds the prompt of the next planning turn from the whole history.
pub fn build_planning_prompt(turns: &[PlanTurn], role: &str) -> (r: String)
    ensures
        r@ == spec_planning_prompt(turns@, role@),
{
    let mut prompt = String::from_str("Você é a IA **");
    push_str(&mut prompt, role);
    push_str(&mut prompt, "** participando de um processo de planejamento colaborativo.\n\n");
    if turns.len() == 0 {
        push_str(&mut prompt, "Este é o primeiro turno do planejamento.\n\n");
    } else {
        push_str(&mut prompt, "Abaixo está o histórico completo dos turnos anteriores:\n\n");
        let ghost head = prompt@;
        let mut i: usize = 0;
        while i < turns.len()
            invariant
                i <= turns@.len(),
                prompt@ == head + spec_turn_blocks(turns@.take(i as int)),
            decreases turns@.len() - i,
        {
            let t = &turns[i];
            push_str(&mut prompt, "--- Turno ");
            push_signed_decimal(&mut prompt, t.sequence);
            push_str(&mut prompt, " | Agente: ");
            push_str(&mut prompt, t.agent.as_str());
            push_str(&mut prompt, " | ");
            push_str(&mut prompt, t.timestamp.as_str());
            push_str(&mut prompt, "\nPrompt enviado:\n");
            let p = trim(t.prompt.as_str());
            push_str(&mut prompt, p.as_str());
            push_str(&mut prompt, "\n\nResposta recebida:\n");
            let c = trim(t.content.as_str());
            push_str(&mut prompt, c.as_str());
            push_str(&mut prompt, "\n\n");
            proof {
                assert(turns@.take(i + 1).drop_last() =~= turns@.take(i as int));
                assert(turns@.take(i + 1).last() == turns@[i as int]);
            }
            i = i + 1;
        }
        assert(turns@.take(turns@.len() as int) =~= turns@);
    }
    push_str(&mut prompt, PLANNING_TASK);
    prompt
}

/// The header line announcing a planning turn (`turn` counts from one).
pub open spec fn spec_turn_header(turn: nat, agent: Seq<char>, role: Seq<char>) -> Seq<char> {
    "══ TURNO "@ + spec_decimal(turn) + " | "@ + agent + " ("@ + role + ") ══"@
}

/// Builds the header line of a planning turn.
pub fn turn_header(turn: u64, agent: &str, role: &str) -> (r: String)
    ensures
        r@ == spec_turn_header(turn as nat, agent@, role@),
{
    let mut s = String::from_str("══ TURNO ");
    push_decimal(&mut s, turn);
    push_str(&mut s, " | ");
    push_str(&mut s, agent);
    push_str(&mut s, " (");
    push_str(&mut s, role);
    push_str(&mut s, ") ══");
    s
}

/// The human's opening briefing is recorded when it holds more than
/// whitespace and the plan has no turn yet; it is stored trimmed.
pub fn initial_briefing(notes: Option<&str>, plan_has_turns: bool) -> (r: Option<String>)
    ensures
        match notes {
            Some(n) => if spec_trim(n@).len() > 0 && !plan_has_turns {
                r matches Some(b) && b@ == spec_trim(n@)
            } else {
                r is None
            },
            None => r is None,
        },
{
    match notes {
        Some(n) => {
            if plan_has_turns || is_blank(n) {
                None
            } else {
                Some(trim(n))
            }
        },
        None => None,
    }
}

/// One planning agent: its name, the role it plays and its CLI.
#[derive(Debug, Clone)]
pub struct PlanningAgent {
    pub agent: String,
    pub role: String,
    pub cli: String,
}

/// The planning agents: the Architect on `cli1`, then the planning Revisor
/// when a second CLI is given.
pub fn planning_agents(cli1: &str, cli2: Option<&str>) -> (r: Vec<PlanningAgent>)
    ensures
        r@.len() == (if cli2 is Some { 2int } else { 1int }),
        r@[0].agent@ == "architect"@ && r@[0].role@ == "Arquiteto"@ && r@[0].cli@ == cli1@,
        cli2 matches Some(c) ==> r@[1].agent@ == "revisor"@ && r@[1].role@ == "Revisor de Planejamento"@
            && r@[1].cli@ == c@,
{
    let mut r: Vec<PlanningAgent> = Vec::new();
    r.push(
        PlanningAgent {
            agent: String::from_str("architect"),
            role: String::from_str("Arquiteto"),
            cli: String::from_str(cli1),
        },
    );
    match cli2 {
        Some(c) => {
            r.push(
                PlanningAgent {
                    agent: String::from_str("revisor"),
                    role: String::from_str("Revisor de Planejamento"),
                    cli: String::from_str(c),
                },
            );
        },
        None => {},
    }
    r
}

// ── The planning loop ──────────────────────────────────────────────────────

/// What the planning loop does next.
#[derive(Debug, Clone, PartialEq, Eq)]
pub enum PlanningNext {
    /// Run turn `turn` (counted from zero) with agent number `agent`.
    RunTurn { agent: usize, turn: usize },
    /// Lock the plan's tasks, export the plan and stop.
    Freeze,
    /// Stop without touching the plan.
    Stop,
    /// Stop: the turn limit is reached.
    LimitReached,
}

/// What a gate decision leads to: the human's notes to record (with the
/// turn's content hashed as a plan version) and what comes next.
#[derive(Debug, Clone, PartialEq, Eq)]
pub struct PlanningStep {
    pub record_notes: Option<String>,
    pub next: PlanningNext,
}

/// The planning loop: how many agents take part, the turn limit, the turn
/// in progress and who takes the next one.
#[derive(Debug, Clone, PartialEq, Eq)]
pub struct PlanningLoop {
    pub agents: usize,
    pub max_turns: usize,
    pub turn: usize,
    pub next_agent: usize,
    pub done: bool,
}

/// The loop is consistent: a turn in progress lies below the limit and its
/// agent exists.
pub open spec fn spec_planning_wf(s: PlanningLoop) -> bool {
    &&& s.agents >= 1
    &&& s.next_agent < s.agents
    &&& !s.done ==> s.turn < s.max_turns
}

/// The loop after the turn in progress, with agent `agent` taking the next.
pub open spec fn spec_advance(s: PlanningLoop, agent: usize) -> (PlanningLoop, PlanningNext) {
    if s.turn + 1 >= s.max_turns {
        (PlanningLoop { done: true, next_agent: 0, ..s }, PlanningNext::LimitReached)
    } else {
        (
            PlanningLoop { turn: (s.turn + 1) as usize, next_agent: agent, ..s },
            PlanningNext::RunTurn { agent: agent, turn: (s.turn + 1) as usize },
        )
    }
}

/// What a decision of the terminal UI's planning gate does: going on
/// freezes the plan; a review request gives the next turn to the Revisor
/// (to the Architect when there is none); notes are recorded and the
/// Architect goes on; aborting stops.
pub open spec fn spec_planning_gate(s: PlanningLoop, d: GateDecision) -> (PlanningLoop, PlanningStep) {
    if s.done {
        (s, PlanningStep { record_notes: None, next: PlanningNext::Stop })
    } else {
        match d {
            GateDecision::Continue | GateDecision::Finalize => (
                PlanningLoop { done: true, ..s },
                PlanningStep { record_notes: None, next: PlanningNext::Freeze },
            ),
            GateDecision::Review => {
                let (s1, n) = spec_advance(s, if s.agents > 1 { 1usize } else { 0usize });
                (s1, PlanningStep { record_notes: None, next: n })
            },
            GateDecision::Enrich(notes) => {
                let (s1, n) = spec_advance(s, 0usize);
                (s1, PlanningStep { record_notes: Some(notes), next: n })
            },
            GateDecision::Abort => (
                PlanningLoop { done: true, ..s },
                PlanningStep { record_notes: None, next: PlanningNext::Stop },
            ),
        }
    }
}

/// The options of the command line's planning gate.
#[derive(Debug, Clone, PartialEq, Eq)]
pub enum PlanGateChoice {
    /// Go on with the next turn.
    Approve,
    /// Go on with the next turn after recording the human's instructions.
    Enrich(String),
    /// Stop planning; the plan is finished.
    Finalize,
    /// Stop planning.
    Abort,
}

/// What a choice at the command line's planning gate does: the Architect
/// takes every next turn; instructions are recorded only when they hold
/// more than whitespace; finishing or aborting just stops.
pub open spec fn spec_planning_cli_gate(s: PlanningLoop, c: PlanGateChoice) -> (PlanningLoop, PlanningStep) {
    if s.done {
        (s, PlanningStep { record_notes: None, next: PlanningNext::Stop })
    } else {
        match c {
            PlanGateChoice::Approve => {
                let (s1, n) = spec_advance(s, 0usize);
                (s1, PlanningStep { record_notes: None, next: n })
            },
            PlanGateChoice::Enrich(notes) => {
                let (s1, n) = spec_advance(s, 0usize);
                (
                    s1,
                    PlanningStep {
                        record_notes: if spec_trim(notes@).len() > 0 {
                            Some(notes)
                        } else {
                            None
                        },
                        next: n,
                    },
                )
            },
            PlanGateChoice::Finalize | PlanGateChoice::Abort => (
                PlanningLoop { done: true, ..s },
                PlanningStep { record_notes: None, next: PlanningNext::Stop },
            ),
        }
    }
}

impl PlanningLoop {
    /// Starts planning with `agents` agents and at most `max_turns` turns:
    /// the Architect takes the first turn, if any is allowed.
    pub fn start(agents: usize, max_turns: usize) -> (r: (PlanningLoop, PlanningNext))
        requires
            agents >= 1,
        ensures
            spec_planning_wf(r.0),
            r.0.agents == agents && r.0.max_turns == max_turns && r.0.turn == 0 && r.0.next_agent == 0,
            max_turns == 0 ==> r.0.done && r.1 == PlanningNext::LimitReached,
            max_turns > 0 ==> !r.0.done && r.1 == (PlanningNext::RunTurn { agent: 0, turn: 0 }),
    {
        if max_turns == 0 {
            (PlanningLoop { agents, max_turns, turn: 0, next_agent: 0, done: true }, PlanningNext::LimitReached)
        } else {
            (
                PlanningLoop { agents, max_turns, turn: 0, next_agent: 0, done: false },
                PlanningNext::RunTurn { agent: 0, turn: 0 },
            )
        }
    }

    /// Moves to the next turn with agent `agent`.
    fn advance(&mut self, agent: usize) -> (r: PlanningNext)
        requires
            spec_planning_wf(*old(self)),
            !old(self).done,
            agent < old(self).agents,
        ensures
            (*final(self), r) == spec_advance(*old(self), agent),
    {
        if self.turn + 1 >= self.max_turns {
            self.done = true;
            self.next_agent = 0;
            PlanningNext::LimitReached
        } else {
            self.turn = self.turn + 1;
            self.next_agent = agent;
            PlanningNext::RunTurn { agent, turn: self.turn }
        }
    }

    /// Feeds a decision of the terminal UI's planning gate.
    pub fn gate(&mut self, decision: GateDecision) -> (r: PlanningStep)
        requires
            spec_planning_wf(*old(self)),
        ensures
            (*final(self), r) == spec_planning_gate(*old(self), decision),
            spec_planning_wf(*final(self)),
    {
        if self.done {
            return PlanningStep { record_notes: None, next: PlanningNext::Stop };
        }
        match decision {
            GateDecision::Continue | GateDecision::Finalize => {
                self.done = true;
                PlanningStep { record_notes: None, next: PlanningNext::Freeze }
            },
            GateDecision::Review => {
                let agent: usize = if self.agents > 1 { 1 } else { 0 };
                let n = self.advance(agent);
                PlanningStep { record_notes: None, next: n }
            },
            GateDecision::Enrich(notes) => {
                let n = self.advance(0);
                PlanningStep { record_notes: Some(notes), next: n }
            },
            GateDecision::Abort => {
                self.done = true;
                PlanningStep { record_notes: None, next: PlanningNext::Stop }
            },
        }
    }

    /// Feeds a choice of the command line's planning gate.
    pub fn cli_gate(&mut self, choice: PlanGateChoice) -> (r: PlanningStep)
        requires
            spec_planning_wf(*old(self)),
        ensures
            (*final(self), r) == spec_planning_cli_gate(*old(self), choice),
            spec_planning_wf(*final(self)),
    {
        if self.done {
            return PlanningStep { record_notes: None, next: PlanningNext::Stop };
        }
        match choice {
            PlanGateChoice::Approve => {
                let n = self.advance(0);
                PlanningStep { record_notes: None, next: n }
            },
            PlanGateChoice::Enrich(notes) => {
                let n = self.advance(0);
                let record = if is_blank(notes.as_str()) {
                    None
                } else {
                    Some(notes)
                };
                PlanningStep { record_notes: record, next: n }
            },
            PlanGateChoice::Finalize | PlanGateChoice::Abort => {
                self.done = true;
                PlanningStep { record_notes: None, next: PlanningNext::Stop }
            },
        }
    }
}

/// At the command-line gate, enriching with notes that hold more than
/// whitespace records exactly those notes for the next turn; blank notes
/// record nothing. Either way the loop goes on as an approval does, and an
/// approval records nothing.
pub proof fn law_cli_enrich_records_the_notes(s: PlanningLoop, notes: String)
    requires
        !s.done,
    ensures
        spec_trim(notes@).len() > 0 ==> spec_planning_cli_gate(s, PlanGateChoice::Enrich(notes)).1.record_notes
            == Some(notes),
        spec_trim(notes@).len() == 0 ==> spec_planning_cli_gate(s, PlanGateChoice::Enrich(notes)).1.record_notes
            is None,
        spec_planning_cli_gate(s, PlanGateChoice::Enrich(notes)).0 == spec_planning_cli_gate(
            s,
            PlanGateChoice::Approve,
        ).0,
        spec_planning_cli_gate(s, PlanGateChoice::Enrich(notes)).1.next == spec_planning_cli_gate(
            s,
            PlanGateChoice::Approve,
        ).1.next,
        spec_planning_cli_gate(s, PlanGateChoice::Approve).1.record_notes is None,
{
}

/// At the terminal UI's gate, enriching records the human's notes and hands
/// the next turn to the Architect, as an approval at the command line does.
pub proof fn law_ui_enrich_records_the_notes(s: PlanningLoop, notes: String)
    requires
        !s.done,
    ensures
        spec_planning_gate(s, GateDecision::Enrich(notes)).1.record_notes == Some(notes),
        spec_planning_gate(s, GateDecision::Enrich(notes)).0 == spec_planning_cli_gate(s, PlanGateChoice::Approve).0,
        spec_planning_gate(s, GateDecision::Enrich(notes)).1.next == spec_planning_cli_gate(
            s,
            PlanGateChoice::Approve,
        ).1.next,
{
}

/// No turn is ever run at or beyond the limit, and every turn's agent
/// exists.
pub proof fn law_turns_stay_within_limit(s: PlanningLoop, d: GateDecision)
    requires
        spec_planning_wf(s),
    ensures
        spec_planning_gate(s, d).1.next matches PlanningNext::RunTurn { agent, turn } ==> turn < s.max_turns
            && agent < s.agents && turn == s.turn + 1,
{
}

/// Asking for a review hands the next turn to the Revisor when there is
/// one; every other way of going on hands it to the Architect.
pub proof fn law_review_goes_to_revisor(s: PlanningLoop, d: GateDecision)
    requires
        spec_planning_wf(s),
    ensures
        spec_planning_gate(s, d).1.next matches PlanningNext::RunTurn { agent, .. } ==> agent == (if d
            is Review && s.agents > 1 {
            1usize
        } else {
            0usize
        }),
{
}

/// The plan is frozen (its tasks locked and exported) exactly when the
/// human lets planning finish at the terminal UI's gate; aborting leaves it
/// untouched.
pub proof fn law_freeze_only_on_finish(s: PlanningLoop, d: GateDecision)
    requires
        spec_planning_wf(s),
        !s.done,
    ensures
        (spec_planning_gate(s, d).1.next == PlanningNext::Freeze) <==> (d is Continue || d is Finalize),
        d is Abort ==> spec_planning_gate(s, d).1 == (PlanningStep { record_notes: None, next: PlanningNext::Stop }),
{
}

} // verus!

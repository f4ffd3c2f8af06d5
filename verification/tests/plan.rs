use ai_orchestrator::commands::plan::{
    build_planning_prompt, initial_briefing, planning_agents, turn_header, PlanGateChoice, PlanningLoop,
    PlanningNext, PlanningStep,
};
use ai_orchestrator::kernel::stream::GateDecision;
use ai_orchestrator::schemas::PlanTurn;

#[test]
fn planning_prompt_first_turn() {
    let p = build_planning_prompt(&[], "Arquiteto");
    assert!(p.starts_with("Você é a IA **Arquiteto** participando de um processo de planejamento colaborativo.\n\n"));
    assert!(p.contains("Este é o primeiro turno do planejamento."));
    assert!(p.ends_with("proponha perguntas objetivas.\n\n"));
}

#[test]
fn planning_prompt_lists_history() {
    let turns = vec![PlanTurn {
        sequence: 1,
        agent: "architect".to_string(),
        prompt: "  Analyze  ".to_string(),
        content: "Here is the architecture".to_string(),
        timestamp: "2024-01-01T00:00:00Z".to_string(),
    }];
    let p = build_planning_prompt(&turns, "Revisor de Planejamento");
    assert!(p.contains(
        "--- Turno 1 | Agente: architect | 2024-01-01T00:00:00Z\nPrompt enviado:\nAnalyze\n\nResposta recebida:\nHere is the architecture\n\n"
    ));
    assert!(!p.contains("primeiro turno"));
}

#[test]
fn turn_header_names_agent_and_role() {
    assert_eq!(turn_header(3, "architect", "Arquiteto"), "══ TURNO 3 | architect (Arquiteto) ══");
}

#[test]
fn briefing_recorded_only_before_first_turn() {
    assert_eq!(initial_briefing(Some("  Build X  "), false), Some("Build X".to_string()));
    assert_eq!(initial_briefing(Some("  "), false), None);
    assert_eq!(initial_briefing(Some("Build X"), true), None);
    assert_eq!(initial_briefing(None, false), None);
}

#[test]
fn planning_agents_with_and_without_second_planner() {
    let one = planning_agents("gemini", None);
    assert_eq!(one.len(), 1);
    assert_eq!(one[0].agent, "architect");
    let two = planning_agents("gemini", Some("codex"));
    assert_eq!(two[1].agent, "revisor");
    assert_eq!(two[1].role, "Revisor de Planejamento");
    assert_eq!(two[1].cli, "codex");
}

#[test]
fn planning_loop_review_goes_to_second_agent() {
    let (mut l, next) = PlanningLoop::start(2, 5);
    assert_eq!(next, PlanningNext::RunTurn { agent: 0, turn: 0 });
    let s = l.gate(GateDecision::Review);
    assert_eq!(s, PlanningStep { record_notes: None, next: PlanningNext::RunTurn { agent: 1, turn: 1 } });
    let s = l.gate(GateDecision::Enrich("more detail".to_string()));
    assert_eq!(s.record_notes, Some("more detail".to_string()));
    assert_eq!(s.next, PlanningNext::RunTurn { agent: 0, turn: 2 });
    assert_eq!(l.gate(GateDecision::Finalize).next, PlanningNext::Freeze);
    assert_eq!(l.gate(GateDecision::Review).next, PlanningNext::Stop);
}

#[test]
fn planning_loop_review_without_second_agent_stays_with_architect() {
    let (mut l, _) = PlanningLoop::start(1, 5);
    assert_eq!(l.gate(GateDecision::Review).next, PlanningNext::RunTurn { agent: 0, turn: 1 });
}

#[test]
fn planning_loop_stops_at_turn_limit() {
    let (mut l, next) = PlanningLoop::start(1, 2);
    assert_eq!(next, PlanningNext::RunTurn { agent: 0, turn: 0 });
    assert_eq!(l.gate(GateDecision::Review).next, PlanningNext::RunTurn { agent: 0, turn: 1 });
    assert_eq!(l.gate(GateDecision::Review).next, PlanningNext::LimitReached);
    let (_, none) = PlanningLoop::start(1, 0);
    assert_eq!(none, PlanningNext::LimitReached);
}

#[test]
fn planning_loop_abort_and_continue() {
    let (mut l, _) = PlanningLoop::start(2, 5);
    assert_eq!(l.gate(GateDecision::Abort), PlanningStep { record_notes: None, next: PlanningNext::Stop });
    let (mut l, _) = PlanningLoop::start(2, 5);
    assert_eq!(l.gate(GateDecision::Continue).next, PlanningNext::Freeze);
}

#[test]
fn planning_cli_gate_choices() {
    let (mut l, _) = PlanningLoop::start(2, 5);
    assert_eq!(l.cli_gate(PlanGateChoice::Approve).next, PlanningNext::RunTurn { agent: 0, turn: 1 });
    let s = l.cli_gate(PlanGateChoice::Enrich("   ".to_string()));
    assert_eq!(s.record_notes, None);
    assert_eq!(l.cli_gate(PlanGateChoice::Finalize).next, PlanningNext::Stop);
}

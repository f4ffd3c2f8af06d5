use ai_orchestrator::commands::run::{
    cycle_result, inter_task_decision, inter_task_default_choice, AuditReply, CliAction, CliEvent, CliLoop,
    DevAction, DevEvent, DevLoop, DevReply, DevStage, InterTaskChoice, TaskOutcome,
};
use ai_orchestrator::kernel::stream::GateDecision;
use ai_orchestrator::schemas::CycleDecision;

fn picked(l: &mut DevLoop, id: &str) -> DevAction {
    l.step(DevEvent::Picked(Some(id.to_string())))
}

#[test]
fn dev_loop_happy_path_completes_task() {
    let mut l = DevLoop::new();
    assert_eq!(picked(&mut l, "t1"), DevAction::PromptDev { task_id: "t1".to_string(), notes: None });
    assert_eq!(l.step(DevEvent::DevReplied(DevReply::Ready)), DevAction::ReviewDiff);
    assert_eq!(l.step(DevEvent::DiffGate(GateDecision::Continue)), DevAction::RequestAudit);
    assert_eq!(l.step(DevEvent::Audited(AuditReply::Approved)), DevAction::ReviewApply);
    assert_eq!(l.step(DevEvent::ApplyGate(GateDecision::Review)), DevAction::ApplyThenReview);
    assert_eq!(
        l.step(DevEvent::InterTaskGate(GateDecision::Continue)),
        DevAction::Requeue { task_id: "t1".to_string(), outcome: TaskOutcome::Completed }
    );
    assert_eq!(l.stage, DevStage::Picking);
    assert_eq!(l.step(DevEvent::Picked(None)), DevAction::Finish);
    assert_eq!(l.stage, DevStage::Finished);
    assert_eq!(l.step(DevEvent::Picked(Some("t2".to_string()))), DevAction::Finish);
}

#[test]
fn dev_loop_security_violation_blocks_task() {
    let mut l = DevLoop::new();
    picked(&mut l, "t1");
    assert_eq!(
        l.step(DevEvent::DevReplied(DevReply::SecurityViolations)),
        DevAction::Requeue { task_id: "t1".to_string(), outcome: TaskOutcome::Blocked }
    );
    assert_eq!(TaskOutcome::Blocked.as_str(), "blocked");
}

#[test]
fn dev_loop_failures_hand_task_back_as_pending() {
    for reply in [DevReply::InvalidJson, DevReply::InvalidDiff, DevReply::ApplyCheckFailed] {
        let mut l = DevLoop::new();
        picked(&mut l, "t1");
        assert_eq!(
            l.step(DevEvent::DevReplied(reply)),
            DevAction::Requeue { task_id: "t1".to_string(), outcome: TaskOutcome::Pending }
        );
    }
    let mut l = DevLoop::new();
    picked(&mut l, "t1");
    l.step(DevEvent::DevReplied(DevReply::Ready));
    l.step(DevEvent::DiffGate(GateDecision::Continue));
    assert_eq!(
        l.step(DevEvent::Audited(AuditReply::Rejected)),
        DevAction::Requeue { task_id: "t1".to_string(), outcome: TaskOutcome::Pending }
    );
}

#[test]
fn dev_loop_enrich_notes_reach_next_prompt_once() {
    let mut l = DevLoop::new();
    picked(&mut l, "t1");
    l.step(DevEvent::DevReplied(DevReply::Ready));
    assert_eq!(
        l.step(DevEvent::DiffGate(GateDecision::Enrich("use JWT".to_string()))),
        DevAction::Requeue { task_id: "t1".to_string(), outcome: TaskOutcome::Pending }
    );
    assert_eq!(
        picked(&mut l, "t1"),
        DevAction::PromptDev { task_id: "t1".to_string(), notes: Some("use JWT".to_string()) }
    );
    assert_eq!(l.notes, None);
}

#[test]
fn dev_loop_skipped_apply_still_asks_about_task() {
    let mut l = DevLoop::new();
    picked(&mut l, "t1");
    l.step(DevEvent::DevReplied(DevReply::Ready));
    l.step(DevEvent::DiffGate(GateDecision::Review));
    l.step(DevEvent::Audited(AuditReply::Approved));
    assert_eq!(l.step(DevEvent::ApplyGate(GateDecision::Abort)), DevAction::ReviewInterTask);
    assert_eq!(l.step(DevEvent::InterTaskGate(GateDecision::Abort)), DevAction::Finish);
    assert_eq!(l.stage, DevStage::Finished);
}

#[test]
fn dev_loop_ignores_out_of_turn_events() {
    let mut l = DevLoop::new();
    assert_eq!(l.step(DevEvent::Audited(AuditReply::Approved)), DevAction::Ignore);
    assert_eq!(l, DevLoop::new());
}

#[test]
fn cli_loop_plan_mode_walks_tasks() {
    let mut l = CliLoop::new(true);
    assert_eq!(l.step(CliEvent::Head), CliAction::Pick);
    assert_eq!(
        l.step(CliEvent::Picked(Some("t1".to_string()))),
        CliAction::RunCycle { task: Some("t1".to_string()), notes: None }
    );
    assert_eq!(
        l.step(CliEvent::Decided(CycleDecision::RepeatCurrentTask { user_notes: Some("n".to_string()) })),
        CliAction::Continue
    );
    assert_eq!(
        l.step(CliEvent::Head),
        CliAction::RunCycle { task: Some("t1".to_string()), notes: Some("n".to_string()) }
    );
    assert_eq!(
        l.step(CliEvent::Decided(CycleDecision::Proceed)),
        CliAction::Complete { task: Some("t1".to_string()), stop: false }
    );
    assert_eq!(l.step(CliEvent::Head), CliAction::Pick);
    assert_eq!(l.step(CliEvent::Picked(None)), CliAction::Stop { plan_done: true });
}

#[test]
fn cli_loop_single_step_runs_once() {
    let mut l = CliLoop::new(false);
    assert_eq!(l.step(CliEvent::Head), CliAction::RunCycle { task: None, notes: None });
    assert_eq!(l.step(CliEvent::Decided(CycleDecision::Proceed)), CliAction::Complete { task: None, stop: true });
    assert_eq!(l.step(CliEvent::Head), CliAction::Stop { plan_done: false });
}

#[test]
fn cli_loop_abort_stops() {
    let mut l = CliLoop::new(true);
    l.step(CliEvent::Head);
    l.step(CliEvent::Picked(Some("t1".to_string())));
    assert_eq!(l.step(CliEvent::Decided(CycleDecision::Abort)), CliAction::Stop { plan_done: false });
    assert_eq!(l.step(CliEvent::Head), CliAction::Stop { plan_done: false });
}

#[test]
fn inter_task_choices_map_to_decisions() {
    assert_eq!(inter_task_decision(InterTaskChoice::Advance, None), CycleDecision::Proceed);
    assert_eq!(
        inter_task_decision(InterTaskChoice::Repeat, Some("  ".to_string())),
        CycleDecision::RepeatCurrentTask { user_notes: None }
    );
    assert_eq!(
        inter_task_decision(InterTaskChoice::Repeat, Some("x".to_string())),
        CycleDecision::RepeatCurrentTask { user_notes: Some("x".to_string()) }
    );
    assert_eq!(
        inter_task_decision(InterTaskChoice::EnrichAndRepeat, Some("do y".to_string())),
        CycleDecision::EnrichAndRepeat { user_notes: "do y".to_string() }
    );
    assert_eq!(
        inter_task_decision(InterTaskChoice::EnrichAndRepeat, Some("".to_string())),
        CycleDecision::RepeatCurrentTask { user_notes: None }
    );
    assert_eq!(inter_task_decision(InterTaskChoice::Abort, None), CycleDecision::Abort);
    assert_eq!(inter_task_default_choice(true), InterTaskChoice::Advance);
    assert_eq!(inter_task_default_choice(false), InterTaskChoice::Repeat);
}

#[test]
fn cycle_result_follows_audit() {
    let ok = cycle_result(true, "s".to_string());
    assert!(ok.approved && ok.applied);
    assert_eq!(ok.decision, CycleDecision::Proceed);
    let no = cycle_result(false, "s".to_string());
    assert!(!no.approved && !no.applied);
    assert_eq!(no.decision, CycleDecision::Abort);
}

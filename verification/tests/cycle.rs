use ai_orchestrator::commands::cycle::{CycleAction, CycleEvent, CycleFailure, CycleLoop, CycleStage};
use ai_orchestrator::schemas::CycleDecision;

fn validated(violations: usize) -> CycleEvent {
    CycleEvent::DevValidated { violations, summary: "Adds hello".to_string() }
}

#[test]
fn approved_cycle_applies_and_proceeds() {
    let mut c = CycleLoop::new();
    assert!(matches!(c.step(validated(0)), CycleAction::ParseDiff));
    assert!(matches!(c.step(CycleEvent::DiffParsed { error: None }), CycleAction::WritePatch));
    assert!(matches!(c.step(CycleEvent::ApplyChecked { error: None }), CycleAction::ReviewDiff));
    assert!(matches!(c.step(CycleEvent::DiffReviewed { aborted: false }), CycleAction::RunAudit));
    assert!(matches!(c.step(CycleEvent::Audited { approved: true }), CycleAction::Apply));
    match c.step(CycleEvent::Applied) {
        CycleAction::Done(r) => {
            assert!(r.approved && r.applied);
            assert_eq!(r.summary, "Adds hello");
            assert_eq!(r.decision, CycleDecision::Proceed);
        }
        other => panic!("unexpected {other:?}"),
    }
    assert_eq!(c.stage, CycleStage::Over);
}

#[test]
fn rejected_cycle_saves_the_handoff_and_stops() {
    let mut c = CycleLoop::new();
    c.step(validated(0));
    c.step(CycleEvent::DiffParsed { error: None });
    c.step(CycleEvent::ApplyChecked { error: None });
    c.step(CycleEvent::DiffReviewed { aborted: false });
    assert!(matches!(c.step(CycleEvent::Audited { approved: false }), CycleAction::SaveHandoff));
    assert!(matches!(c.step(CycleEvent::Applied), CycleAction::Ignore));
    match c.step(CycleEvent::RejectionSaved) {
        CycleAction::Done(r) => {
            assert!(!r.approved && !r.applied);
            assert_eq!(r.decision, CycleDecision::Abort);
        }
        other => panic!("unexpected {other:?}"),
    }
}

#[test]
fn security_violation_ends_the_cycle() {
    let mut c = CycleLoop::new();
    match c.step(validated(2)) {
        CycleAction::Fail(f) => {
            assert_eq!(f, CycleFailure::Security);
            assert_eq!(f.message(), "security violations detected");
        }
        other => panic!("unexpected {other:?}"),
    }
    assert!(matches!(c.step(CycleEvent::DiffParsed { error: None }), CycleAction::Ignore));
    assert!(matches!(c.step(CycleEvent::Audited { approved: true }), CycleAction::Ignore));
}

#[test]
fn invalid_diff_and_failed_check_and_abort_fail_with_their_messages() {
    let mut c = CycleLoop::new();
    c.step(validated(0));
    match c.step(CycleEvent::DiffParsed { error: Some("not a valid unified diff".to_string()) }) {
        CycleAction::Fail(f) => assert_eq!(f.message(), "not a valid unified diff"),
        other => panic!("unexpected {other:?}"),
    }
    let mut c = CycleLoop::new();
    c.step(validated(0));
    c.step(CycleEvent::DiffParsed { error: None });
    match c.step(CycleEvent::ApplyChecked { error: Some("patch does not apply".to_string()) }) {
        CycleAction::Fail(f) => assert_eq!(f, CycleFailure::ApplyCheck("patch does not apply".to_string())),
        other => panic!("unexpected {other:?}"),
    }
    let mut c = CycleLoop::new();
    c.step(validated(0));
    c.step(CycleEvent::DiffParsed { error: None });
    c.step(CycleEvent::ApplyChecked { error: None });
    match c.step(CycleEvent::DiffReviewed { aborted: true }) {
        CycleAction::Fail(f) => assert_eq!(f.message(), "Handoff cancelado"),
        other => panic!("unexpected {other:?}"),
    }
}

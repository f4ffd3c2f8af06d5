use ai_orchestrator::schemas::{AuditResponse, CycleState, CycleStatus, DevResponse, Handoff, HandoffStatus};

fn dev(step_id: &str, diff: &str) -> DevResponse {
    DevResponse {
        step_id: step_id.to_string(),
        summary: "Implement feature".to_string(),
        files_touched: vec!["src/main.rs".to_string()],
        diff: diff.to_string(),
        tests_suggested: vec![],
        risks: vec![],
    }
}

fn audit(approved: bool, score: u8, blocked: Option<&str>) -> AuditResponse {
    AuditResponse {
        approved,
        score,
        problems: vec![],
        required_changes: vec![],
        blocked_reason: blocked.map(|b| b.to_string()),
    }
}

fn handoff(agent: &str) -> Handoff {
    Handoff {
        agent: agent.to_string(),
        target_agent: "auditor".to_string(),
        step_id: "001".to_string(),
        status: HandoffStatus::WaitingAudit,
        summary: "Patch ready".to_string(),
        decisions: vec![],
        files_touched: vec![],
        open_questions: vec![],
        risks: vec![],
        next_action: "audit".to_string(),
    }
}

fn cycle(run_id: &str, base_commit: &str) -> CycleState {
    CycleState {
        run_id: run_id.to_string(),
        step_id: "001".to_string(),
        status: CycleStatus::Initialized,
        base_commit: base_commit.to_string(),
        plan_hash: "abc".to_string(),
        memory_hash: "def".to_string(),
        patch_file: None,
        patch_hash: None,
        audit_file: None,
        audit_approved: None,
        created_at: "2024-01-01T00:00:00Z".to_string(),
        updated_at: "2024-01-01T00:00:00Z".to_string(),
    }
}

#[test]
fn dev_response_with_empty_diff_fails_validation() {
    assert!(dev("001", "").validate().is_err());
}

#[test]
fn dev_response_empty_step_id_fails_validation() {
    let r = dev("", "--- a/src/main.rs\n+++ b/src/main.rs\n@@\n-old\n+new");
    assert!(r.validate().is_err());
    assert_eq!(r.validate().unwrap_err().message(), "step_id cannot be empty");
}

#[test]
fn valid_dev_response_passes_validation() {
    assert!(dev("001", "--- a/src/main.rs\n+++ b/src/main.rs\n@@\n-old\n+new").validate().is_ok());
}

#[test]
fn audit_response_with_score_over_100_fails_validation() {
    assert!(audit(false, 101, None).validate().is_err());
}

#[test]
fn audit_rejected_without_blocked_reason_is_valid() {
    assert!(audit(false, 40, None).validate().is_ok());
}

#[test]
fn audit_score_zero_is_valid() {
    assert!(audit(false, 0, Some("blocked")).validate().is_ok());
    assert!(audit(true, 100, None).validate().is_ok());
}

#[test]
fn handoff_empty_agent_fails_validation() {
    let e = handoff("").validate().unwrap_err();
    assert_eq!(e.message(), "agent cannot be empty");
    assert!(handoff("dev").validate().is_ok());
}

#[test]
fn cycle_state_empty_run_id_fails_validation() {
    let e = cycle("", "abc1234").validate().unwrap_err();
    assert_eq!(e.message(), "run_id cannot be empty");
}

#[test]
fn cycle_state_empty_base_commit_fails_validation() {
    let e = cycle("run-1", "   ").validate().unwrap_err();
    assert_eq!(e.message(), "base_commit cannot be empty");
    assert!(cycle("run-1", "abc1234").validate().is_ok());
}

#[test]
fn valid_dev_response_deserializes() {
    // The value described by the JSON text of the wire format, built field by field.
    let response = DevResponse {
        step_id: "001".to_string(),
        summary: "Implement feature".to_string(),
        files_touched: vec!["src/main.rs".to_string()],
        diff: "--- a/src/main.rs\n+++ b/src/main.rs\n@@\n-old\n+new".to_string(),
        tests_suggested: vec!["cargo test".to_string()],
        risks: vec![],
    };
    response.validate().expect("response should be valid");
}

#[test]
fn valid_audit_response_deserializes() {
    let response = AuditResponse {
        approved: true,
        score: 92,
        problems: vec![],
        required_changes: vec![],
        blocked_reason: None,
    };
    response.validate().expect("response should be valid");
}

#[test]
fn valid_handoff_deserializes() {
    let handoff = Handoff {
        agent: "dev".to_string(),
        target_agent: "auditor".to_string(),
        step_id: "001".to_string(),
        status: HandoffStatus::WaitingAudit,
        summary: "Patch ready".to_string(),
        decisions: vec![],
        files_touched: vec!["src/main.rs".to_string()],
        open_questions: vec![],
        risks: vec![],
        next_action: "Audit patch".to_string(),
    };
    handoff.validate().expect("handoff should validate");
}

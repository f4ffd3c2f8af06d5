use ai_orchestrator::kernel::handoff::{create_auditor_to_dev_handoff, create_dev_to_auditor_handoff, latest_index};
use ai_orchestrator::kernel::memory::{agent_label, bullet_block, handoff_section, status_label};
use ai_orchestrator::schemas::{AuditResponse, DevResponse, Handoff, HandoffStatus};

fn make_valid_diff(file: &str) -> String {
    format!("--- a/{file}\n+++ b/{file}\n@@ -1 +1 @@\n-old line\n+new line\n")
}

fn make_dev_response(diff: &str) -> DevResponse {
    DevResponse {
        step_id: "step-001".to_string(),
        summary: "Implements feature X".to_string(),
        files_touched: vec!["src/lib.rs".to_string()],
        diff: diff.to_string(),
        tests_suggested: vec!["cargo test".to_string()],
        risks: vec!["Low risk change".to_string()],
    }
}

fn make_audit_response(approved: bool) -> AuditResponse {
    AuditResponse {
        approved,
        score: if approved { 90 } else { 40 },
        problems: if approved { vec![] } else { vec!["Missing error handling".to_string()] },
        required_changes: if approved { vec![] } else { vec!["Add proper error handling".to_string()] },
        blocked_reason: if approved { None } else { Some("Code quality too low".to_string()) },
    }
}

#[test]
fn dev_to_auditor_handoff_fields_are_correct() {
    let dev_resp = make_dev_response(&make_valid_diff("src/lib.rs"));
    let handoff = create_dev_to_auditor_handoff("run-001", "step-001", &dev_resp, "patchhash123");

    assert_eq!(handoff.agent, "dev");
    assert_eq!(handoff.target_agent, "auditor");
    assert_eq!(handoff.step_id, "step-001");
    assert_eq!(handoff.status, HandoffStatus::WaitingAudit);
    assert_eq!(handoff.summary, dev_resp.summary);
    assert_eq!(handoff.files_touched, dev_resp.files_touched);
    assert_eq!(handoff.risks, dev_resp.risks);
    assert!(handoff.decisions.iter().any(|d| d.contains("patchhash123")));
}

#[test]
fn dev_to_auditor_handoff_includes_suggested_tests_in_decisions() {
    let mut dev_resp = make_dev_response(&make_valid_diff("src/lib.rs"));
    dev_resp.tests_suggested = vec!["cargo test".to_string(), "cargo clippy".to_string()];

    let handoff = create_dev_to_auditor_handoff("run-001", "step-001", &dev_resp, "hash");
    let decisions_text = handoff.decisions.join(" ");
    assert!(decisions_text.contains("cargo test"));
}

#[test]
fn auditor_to_dev_handoff_status_is_rejected() {
    let audit_resp = make_audit_response(false);
    let handoff = create_auditor_to_dev_handoff("run-001", "step-001", &audit_resp);

    assert_eq!(handoff.agent, "auditor");
    assert_eq!(handoff.target_agent, "dev");
    assert_eq!(handoff.status, HandoffStatus::Rejected);
    assert!(!handoff.next_action.is_empty());
}

#[test]
fn auditor_to_dev_handoff_propagates_required_changes() {
    let audit_resp = make_audit_response(false);
    let handoff = create_auditor_to_dev_handoff("run-001", "step-001", &audit_resp);

    assert!(!handoff.decisions.is_empty());
    assert!(!handoff.open_questions.is_empty());
}

#[test]
fn created_handoffs_pass_validation() {
    let dev = create_dev_to_auditor_handoff("r", "step-9", &make_dev_response("x"), "h");
    assert!(dev.validate().is_ok());
    let aud = create_auditor_to_dev_handoff("r", "step-9", &make_audit_response(false));
    assert!(aud.validate().is_ok());
}

#[test]
fn latest_index_picks_first_newest() {
    assert_eq!(latest_index(&vec![]), None);
    assert_eq!(latest_index(&vec![5, 9, 9, 1]), Some(1));
    assert_eq!(latest_index(&vec![3]), Some(0));
}

#[test]
fn memory_labels_are_portuguese() {
    assert_eq!(agent_label("dev"), "IA Dev");
    assert_eq!(agent_label("auditor"), "IA Auditora");
    assert_eq!(agent_label("architect"), "IA Arquiteta");
    assert_eq!(agent_label("human"), "human");
    assert_eq!(status_label(HandoffStatus::Rejected), "Reprovado — requer correções");
    assert_eq!(status_label(HandoffStatus::WaitingAudit), "Aguardando auditoria");
}

#[test]
fn bullet_block_lists_or_says_empty() {
    assert_eq!(bullet_block(&vec![], "(nenhum)"), "(nenhum)");
    assert_eq!(bullet_block(&vec!["a".to_string(), "b".to_string()], "(nenhum)"), "  - a\n  - b");
}

#[test]
fn handoff_section_names_run_and_agents() {
    let h = Handoff {
        agent: "dev".to_string(),
        target_agent: "auditor".to_string(),
        step_id: "step-001".to_string(),
        status: HandoffStatus::WaitingAudit,
        summary: "Resumo".to_string(),
        decisions: vec![],
        files_touched: vec!["src/lib.rs".to_string()],
        open_questions: vec![],
        risks: vec![],
        next_action: "Auditar".to_string(),
    };
    let s = handoff_section("run-1", &h, "2024-01-01T00:00:00Z");
    assert!(s.contains("run-1"));
    assert!(s.contains("IA Dev"));
    assert!(s.starts_with("\n## [IA Dev] Run run-1 — 2024-01-01T00:00:00Z\n**Status:** Aguardando auditoria"));
    assert!(s.contains("Resumo"));
}

#[test]
fn sync_appends_the_section_and_hashes_the_new_context() {
    let h = ai_orchestrator::kernel::handoff::create_dev_to_auditor_handoff(
        "run-001",
        "001",
        &ai_orchestrator::schemas::DevResponse {
            step_id: "001".to_string(),
            summary: "Adds hello".to_string(),
            files_touched: vec!["src/lib.rs".to_string()],
            diff: "d".to_string(),
            tests_suggested: vec![],
            risks: vec![],
        },
        "sha256:abc",
    );
    let synced = ai_orchestrator::kernel::memory::synced_context("# Memória\n", "run-001", &h, "2024-01-01T00:00:00Z");
    assert!(synced.content.starts_with("# Memória\n"));
    assert!(synced.content.contains("run-001"));
    assert!(synced.content.contains("Aguardando auditoria"));
    assert_eq!(synced.memory_hash, ai_orchestrator::kernel::compute_sha256(&synced.content));
    assert_eq!(synced.memory_hash.len(), 71);
}

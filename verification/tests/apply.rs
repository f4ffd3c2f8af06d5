use ai_orchestrator::commands::apply::{
    apply_targets, check_hash, check_patch, check_repository, commit_message, confirmation, mark_applied, ApplyError,
};
use ai_orchestrator::kernel::patch::compute_patch_hash;
use ai_orchestrator::schemas::{CycleState, CycleStatus};

const DIFF: &str = "--- a/src/lib.rs\n+++ b/src/lib.rs\n@@ -1 +1 @@\n-old\n+new\n";

fn cycle(status: CycleStatus, patch_hash: Option<String>) -> CycleState {
    CycleState {
        run_id: "run-1".to_string(),
        step_id: "001".to_string(),
        status,
        base_commit: "abc1234".to_string(),
        plan_hash: "p".to_string(),
        memory_hash: "m".to_string(),
        patch_file: Some("patches/run-1.diff".to_string()),
        patch_hash,
        audit_file: Some("mailbox/run-1-audit-response.json".to_string()),
        audit_approved: Some(true),
        created_at: "t0".to_string(),
        updated_at: "t0".to_string(),
    }
}

#[test]
fn approved_patch_passes_checks() {
    let c = cycle(CycleStatus::Approved, Some(compute_patch_hash(DIFF)));
    assert_eq!(check_patch(&c, DIFF), Ok(()));
    assert_eq!(check_repository(&c, "abc1234", true), Ok(()));
}

#[test]
fn changed_patch_is_refused() {
    let c = cycle(CycleStatus::Approved, Some(compute_patch_hash(DIFF)));
    let other = "--- a/src/lib.rs\n+++ b/src/lib.rs\n@@ -1 +1 @@\n-old\n+other\n";
    assert_eq!(check_patch(&c, other), Err(ApplyError::HashMismatch));
    let none = cycle(CycleStatus::Approved, None);
    assert_eq!(check_patch(&none, DIFF), Err(ApplyError::HashMismatch));
    assert_eq!(
        ApplyError::HashMismatch.message(),
        "patch hash mismatch: patch file content changed since approval"
    );
}

#[test]
fn insecure_patch_is_refused() {
    let bad = "--- a/.env\n+++ b/.env\n@@\n+TOKEN=1\n";
    let c = cycle(CycleStatus::Approved, Some(compute_patch_hash(bad)));
    assert_eq!(check_patch(&c, bad), Err(ApplyError::SecurityViolations));
}

#[test]
fn moved_head_and_dirty_tree_are_refused() {
    let c = cycle(CycleStatus::Approved, None);
    let e = check_repository(&c, "def5678", true).unwrap_err();
    assert_eq!(e.message(), "HEAD moved since patch generation. Expected abc1234, found def5678.");
    assert_eq!(check_repository(&c, "abc1234", false), Err(ApplyError::DirtyTree));
    assert_eq!(check_repository(&c, "def5678", false).unwrap_err(), e);
}

#[test]
fn confirmation_needs_apply_word() {
    assert_eq!(confirmation("APPLY\n"), Ok(()));
    assert_eq!(confirmation("  APPLY  "), Ok(()));
    assert_eq!(confirmation("apply"), Err(ApplyError::NotConfirmed));
    assert_eq!(confirmation(""), Err(ApplyError::NotConfirmed));
}

#[test]
fn commit_message_has_exact_shape() {
    let files = vec!["src/lib.rs".to_string(), "src/main.rs".to_string()];
    assert_eq!(
        commit_message("001", "Adds hello", 92, &files),
        "[ai-orchestrator] step 001: Adds hello (score: 92, arquivos: src/lib.rs, src/main.rs)"
    );
    assert_eq!(commit_message("7", "x", 0, &[]), "[ai-orchestrator] step 7: x (score: 0, arquivos: )");
}

#[test]
fn applied_cycle_keeps_everything_else() {
    let mut c = cycle(CycleStatus::Approved, Some("h".to_string()));
    mark_applied(&mut c, "t1".to_string());
    assert_eq!(c.status, CycleStatus::Applied);
    assert_eq!(c.updated_at, "t1");
    assert_eq!(c.created_at, "t0");
    assert_eq!(c.patch_hash, Some("h".to_string()));
}

#[test]
fn apply_targets_resolve_paths() {
    let c = cycle(CycleStatus::Approved, None);
    let t = apply_targets(&c, None, "/ws", "/ws/.ai-orchestrator").unwrap();
    assert_eq!(t.patch_path, "/ws/.ai-orchestrator/patches/run-1.diff");
    assert_eq!(t.audit_path, "/ws/.ai-orchestrator/mailbox/run-1-audit-response.json");
    let t = apply_targets(&c, Some("my.diff"), "/ws", "/ws/.ai-orchestrator").unwrap();
    assert_eq!(t.patch_path, "/ws/my.diff");
    let t = apply_targets(&c, Some("/tmp/x.diff"), "/ws", "/ws/.ai-orchestrator").unwrap();
    assert_eq!(t.patch_path, "/tmp/x.diff");
}

#[test]
fn apply_targets_refusals() {
    let c = cycle(CycleStatus::Rejected, None);
    let e = apply_targets(&c, None, "/ws", "/o").unwrap_err();
    assert_eq!(e, ApplyError::NotApproved);
    assert!(e.message().starts_with("current cycle is not approved."));
    let mut c = cycle(CycleStatus::Approved, None);
    c.patch_file = None;
    assert_eq!(apply_targets(&c, None, "/ws", "/o").unwrap_err(), ApplyError::NoPatchFile);
    c.audit_file = None;
    assert_eq!(apply_targets(&c, Some("p.diff"), "/ws", "/o").unwrap_err(), ApplyError::NoAuditFile);
}

#[test]
fn dry_run_hash_check_only_compares_hashes() {

    let c = cycle(CycleStatus::Approved, Some(compute_patch_hash(DIFF)));
    assert_eq!(check_hash(&c, DIFF), Ok(()));
    assert_eq!(check_hash(&c, "outro"), Err(ApplyError::HashMismatch));
    let none = cycle(CycleStatus::Approved, None);
    assert_eq!(check_hash(&none, DIFF), Err(ApplyError::HashMismatch));
}

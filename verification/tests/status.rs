use ai_orchestrator::commands::status::{collect_patches, count_steps, is_diff_file, latest_patch, PatchEntry};
use ai_orchestrator::schemas::{CycleState, CycleStatus};

fn cycle(status: CycleStatus) -> CycleState {
    CycleState {
        run_id: "run-1".to_string(),
        step_id: "001".to_string(),
        status,
        base_commit: "abc1234".to_string(),
        plan_hash: "p".to_string(),
        memory_hash: "m".to_string(),
        patch_file: Some("patches/run-1.diff".to_string()),
        patch_hash: None,
        audit_file: None,
        audit_approved: None,
        created_at: "t0".to_string(),
        updated_at: "t0".to_string(),
    }
}

fn names(v: &[&str]) -> Vec<String> {
    v.iter().map(|s| s.to_string()).collect()
}

#[test]
fn diff_extension_follows_path_rules() {
    assert!(is_diff_file("run-1.diff"));
    assert!(is_diff_file("a.b.diff"));
    assert!(!is_diff_file(".diff"));
    assert!(!is_diff_file("run.diff.bak"));
    assert!(!is_diff_file("diff"));
    assert!(!is_diff_file("notes.md"));
}

#[test]
fn latest_patch_keeps_the_first_newest_diff() {
    let n = names(&["a.diff", "b.txt", "c.diff", "d.diff"]);
    assert_eq!(latest_patch(&n, &[5, 99, 7, 7]), Some(2));
    assert_eq!(latest_patch(&names(&["x.md"]), &[1]), None);
    assert_eq!(latest_patch(&[], &[]), None);
}

#[test]
fn patches_are_listed_sorted_with_their_state() {
    let c = cycle(CycleStatus::Approved);
    let got = collect_patches(&c, &names(&["run-2.diff", "notes.md", "run-1.diff", "a.diff"]));
    assert_eq!(
        got,
        vec![
            PatchEntry { file: "patches/a.diff".to_string(), status: "pending" },
            PatchEntry { file: "patches/run-1.diff".to_string(), status: "audited:approved" },
            PatchEntry { file: "patches/run-2.diff".to_string(), status: "pending" },
        ]
    );
    let applied = cycle(CycleStatus::Applied);
    assert_eq!(collect_patches(&applied, &names(&["run-1.diff"]))[0].status, "applied");
}

#[test]
fn plan_steps_are_counted() {
    assert_eq!(count_steps("# Plano\n1. primeiro\n2. segundo\ntexto 3. não\n10.\tdécimo\n"), 3);
    assert_eq!(count_steps(""), 0);
}

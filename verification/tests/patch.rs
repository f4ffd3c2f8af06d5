use ai_orchestrator::kernel::compute_sha256;
use ai_orchestrator::kernel::patch::{compute_patch_hash, parse_diff};

#[test]
fn valid_unified_diff_is_parsed() {
    let diff = "--- a/src/lib.rs\n+++ b/src/lib.rs\n@@ -1 +1 @@\n-old\n+new\n";
    let parsed = parse_diff(diff).expect("diff should parse");
    assert!(parsed.is_valid_unified_diff);
    assert_eq!(parsed.raw, diff);
}

#[test]
fn file_paths_are_extracted_from_plus_plus_plus_lines() {
    let diff = "--- a/src/lib.rs\n+++ b/src/lib.rs\n@@ -1 +1 @@\n-old\n+new\n--- a/src/main.rs\n+++ b/src/main.rs\n@@ -1 +1 @@\n-old\n+new\n";
    let parsed = parse_diff(diff).expect("diff should parse");
    assert_eq!(parsed.files_modified, vec!["src/lib.rs", "src/main.rs"]);
}

#[test]
fn invalid_diff_without_headers_fails() {
    let err = parse_diff("@@ -1 +1 @@\n-old\n+new\n").expect_err("diff should fail");
    assert!(err.message().contains("unified diff"));
}

#[test]
fn empty_diff_fails() {
    let err = parse_diff("   ").expect_err("empty diff should fail");
    assert!(err.message().contains("empty"));
}

#[test]
fn patch_hash_is_deterministic() {
    let diff = "--- a/src/lib.rs\n+++ b/src/lib.rs\n@@ -1 +1 @@\n-old\n+new\n";
    assert_eq!(compute_patch_hash(diff), compute_patch_hash(diff));
}

#[test]
fn patch_hash_differs_for_different_diffs() {
    let d1 = "--- a/src/lib.rs\n+++ b/src/lib.rs\n@@ -1 +1 @@\n-old\n+new\n";
    let d2 = "--- a/src/lib.rs\n+++ b/src/lib.rs\n@@ -1 +1 @@\n-old\n+other\n";
    assert_ne!(compute_patch_hash(d1), compute_patch_hash(d2));
}

#[test]
fn new_file_diff_from_dev_null_is_parsed() {
    let diff = "--- /dev/null\n+++ b/src/new_file.rs\n@@ -0,0 +1 @@\n+fn brand_new() {}\n";
    let parsed = parse_diff(diff).expect("new-file diff should parse");
    assert!(parsed.is_valid_unified_diff);
    assert_eq!(parsed.files_modified, vec!["src/new_file.rs"]);
}

#[test]
fn multi_hunk_diff_in_same_file_extracts_single_path() {
    let diff = "--- a/src/lib.rs\n+++ b/src/lib.rs\n@@ -1 +1 @@\n-fn old_a() {}\n+fn new_a() {}\n@@ -10 +10 @@\n-fn old_b() {}\n+fn new_b() {}\n";
    let parsed = parse_diff(diff).expect("multi-hunk diff should parse");
    assert_eq!(parsed.files_modified.len(), 1);
    assert_eq!(parsed.files_modified[0], "src/lib.rs");
}

#[test]
fn diff_with_multiple_files_deduplicates_paths() {
    let diff = "--- a/src/lib.rs\n+++ b/src/lib.rs\n@@ -1 +1 @@\n-old\n+new\n--- a/src/lib.rs\n+++ b/src/lib.rs\n@@ -5 +5 @@\n-old2\n+new2\n";
    let parsed = parse_diff(diff).expect("duplicate-file diff should parse");
    assert_eq!(parsed.files_modified.len(), 1);
}

#[test]
fn sha256_label_of_known_text() {
    assert_eq!(
        compute_sha256("abc"),
        "sha256:ba7816bf8f01cfea414140de5dae2223b00361a396177a9cb410ff61f20015ad"
    );
    assert_eq!(
        compute_sha256(""),
        "sha256:e3b0c44298fc1c149afbf4c8996fb92427ae41e4649b934ca495991b7852b855"
    );
    assert_eq!(compute_patch_hash("abc").len(), 71);
}

#[test]
fn error_messages_are_exact() {
    assert_eq!(parse_diff("").unwrap_err().message(), "diff content is empty");
    assert_eq!(parse_diff("hello").unwrap_err().message(), "diff is not a valid unified diff");
}

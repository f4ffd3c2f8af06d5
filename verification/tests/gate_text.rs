use ai_orchestrator::commands::gate_text::{apply_question, diff_review_preview, diff_review_text, inter_task_info, task_log};

fn strings(v: &[&str]) -> Vec<String> {
    v.iter().map(|s| s.to_string()).collect()
}

#[test]
fn review_text_lists_files_and_risks() {
    let files = strings(&["src/a.rs", "src/b.rs"]);
    assert_eq!(
        diff_review_text(&files, &[], "--- a\n+++ b\n"),
        "Arquivos: src/a.rs, src/b.rs\nRiscos: nenhum\n\n--- a\n+++ b\n"
    );
    assert_eq!(
        diff_review_text(&files, &strings(&["lento"]), "x"),
        "Arquivos: src/a.rs, src/b.rs\nRiscos: lento\n\nx"
    );
}

#[test]
fn review_preview_cuts_long_diffs() {
    let diff: String = (0..35).map(|i| format!("+l{}\n", i)).collect();
    let preview = diff_review_preview(&strings(&["f"]), &[], &diff);
    assert!(preview.starts_with("Arquivos: f\nRiscos: nenhum\n\n+l0\n"));
    assert!(preview.ends_with("+l29\n... (+5 linhas)"));
    assert_eq!(diff_review_preview(&[], &[], "a\nb"), "Arquivos: \nRiscos: nenhum\n\na\nb");
}

#[test]
fn apply_and_inter_task_texts_show_the_hash_head() {
    let hash = "sha256:0123456789abcdef";
    assert_eq!(apply_question(&strings(&["a.rs"]), hash), "Aplicar patch?\n\nArquivos: a.rs\nHash: sha256:012345678");
    assert_eq!(inter_task_info("Tarefa X", true, hash), "Tarefa: Tarefa X\nStatus: aplicado\nPatch: sha256:012345678");
    assert_eq!(inter_task_info("T", false, hash), "Tarefa: T\nStatus: skipped\nPatch: sha256:012345678");
}

#[test]
fn task_log_tags_the_task() {
    assert_eq!(task_log(Some("t1"), "Diff aprovado"), "[Task t1] Diff aprovado");
    assert_eq!(task_log(None, "Diff aprovado"), "Diff aprovado");
}

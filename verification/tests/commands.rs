use ai_orchestrator::commands::session::{sessions_path, SessionInfo};
use ai_orchestrator::commands::status::{audit_label, patch_status, suggested_command};
use ai_orchestrator::commands::{
    gate_content, human_notes, plan_in_sync, plan_markdown, preview_styles, status_label, LineStyle,
};
use ai_orchestrator::kernel::compute_sha256;
use ai_orchestrator::schemas::{CycleState, CycleStatus, Task};

#[test]
fn gate_content_appends_nonblank_notes() {
    assert_eq!(gate_content("diff", None), "diff");
    assert_eq!(gate_content("diff", Some("   ")), "diff");
    assert_eq!(gate_content("diff", Some("use X")), "diff\n\n[NOTAS DO HUMANO]\nuse X");
}

#[test]
fn human_notes_round_trip_through_gate() {
    let text = gate_content("the prompt", Some("  be brief  "));
    assert_eq!(human_notes(&text), Some("be brief".to_string()));
    assert_eq!(human_notes("no notes here"), None);
    assert_eq!(human_notes("[NOTAS DO HUMANO]"), Some(String::new()));
}

#[test]
fn status_label_words() {
    assert_eq!(status_label(true), "clean");
    assert_eq!(status_label(false), "dirty");
}

fn task(id: &str, status: &str, assigned: Option<&str>) -> Task {
    Task {
        id: id.to_string(),
        description: format!("Task {id}"),
        status: status.to_string(),
        assigned_to: assigned.map(|a| a.to_string()),
    }
}

#[test]
fn plan_markdown_renders_todo_list() {
    let md = plan_markdown(
        "My Plan",
        &[task("a", "completed", None), task("b", "pending", Some("dev")), task("c", "blocked", None), task("d", "in_progress", None)],
    );
    assert!(md.starts_with("<!-- ⚠️ ESTE ARQUIVO É GERADO AUTOMATICAMENTE PELO AI-ORQUESTRATOR. NÃO EDITE DIRETAMENTE. -->\n\n# My Plan\n\n## Todo List\n\n"));
    assert!(md.contains("- [x] Task a\n- [ ] Task b (@dev)\n- [!] Task c\n- [ ] Task d\n"));
    assert!(md.ends_with("O banco de dados é a fonte da verdade.*\n"));
}

#[test]
fn plan_markdown_notes_empty_list() {
    let md = plan_markdown("Empty", &[]);
    assert!(md.contains("## Todo List\n\n  (nenhuma tarefa definida)\n\n---\n"));
}

#[test]
fn plan_sync_detects_edits() {
    let md = plan_markdown("P", &[]);
    let recorded = compute_sha256(&md);
    assert!(plan_in_sync(Some(&compute_sha256(&md)), Some(&recorded)));
    let edited = format!("{md}edit");
    assert!(!plan_in_sync(Some(&compute_sha256(&edited)), Some(&recorded)));
    assert!(plan_in_sync(None, None));
    assert!(!plan_in_sync(Some(&recorded), None));
}

#[test]
fn preview_styles_color_diff_lines() {
    let content = "--- a/x\n+++ b/x\n@@ -1 +1 @@\n-old\n+new\n ctx";
    let (styles, cut) = preview_styles(content, 60);
    assert_eq!(
        styles,
        vec![LineStyle::Header, LineStyle::Header, LineStyle::Hunk, LineStyle::Removed, LineStyle::Added, LineStyle::Dim]
    );
    assert_eq!(cut, 0);
}

#[test]
fn preview_styles_plain_text_is_dim_and_cut() {
    let (styles, cut) = preview_styles("a\n+b\nc", 2);
    assert_eq!(styles, vec![LineStyle::Dim, LineStyle::Dim]);
    assert_eq!(cut, 1);
}

fn cycle(status: CycleStatus) -> CycleState {
    CycleState {
        run_id: "r".to_string(),
        step_id: "s".to_string(),
        status,
        base_commit: "b".to_string(),
        plan_hash: "p".to_string(),
        memory_hash: "m".to_string(),
        patch_file: Some("patches/r.diff".to_string()),
        patch_hash: None,
        audit_file: None,
        audit_approved: None,
        created_at: "t".to_string(),
        updated_at: "t".to_string(),
    }
}

#[test]
fn suggested_commands_follow_cycle() {
    assert_eq!(suggested_command(&CycleStatus::Initialized), "ai-orchestrator run");
    assert_eq!(suggested_command(&CycleStatus::DevDone), "ai-orchestrator audit");
    assert_eq!(suggested_command(&CycleStatus::Approved), "ai-orchestrator apply");
    assert_eq!(suggested_command(&CycleStatus::Applied), "git diff HEAD && git commit");
}

#[test]
fn patch_status_marks_only_current_patch() {
    assert_eq!(patch_status(&cycle(CycleStatus::Approved), "patches/r.diff"), "audited:approved");
    assert_eq!(patch_status(&cycle(CycleStatus::Applied), "patches/r.diff"), "applied");
    assert_eq!(patch_status(&cycle(CycleStatus::Approved), "patches/other.diff"), "pending");
    assert_eq!(patch_status(&cycle(CycleStatus::DevDone), "patches/r.diff"), "pending");
    assert_eq!(audit_label(Some(false)), "rejected");
    assert_eq!(audit_label(None), "pending");
}

#[test]
fn sessions_registry_path() {
    assert_eq!(sessions_path("/w/.ai-orchestrator"), "/w/.ai-orchestrator/sessions.json");
    let s = SessionInfo { pid: 42, agent_name: "dev".to_string(), command: vec!["gemini".to_string()] };
    assert_eq!(s.pid, 42);
}

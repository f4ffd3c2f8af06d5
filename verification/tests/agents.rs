use ai_orchestrator::agents::dev::{is_snapshot_ignored, snapshot_entry, snapshot_text, EMPTY_SNAPSHOT};
use ai_orchestrator::agents::{auditor, dev};
use ai_orchestrator::providers::ProviderResponse;
use ai_orchestrator::schemas::{AuditResponse, DevResponse, Task};

fn make_tasks() -> Vec<Task> {
    vec![
        Task {
            id: "task-1".to_string(),
            description: "Setup database".to_string(),
            status: "completed".to_string(),
            assigned_to: None,
        },
        Task {
            id: "task-2".to_string(),
            description: "Implement auth".to_string(),
            status: "in_progress".to_string(),
            assigned_to: Some("dev".to_string()),
        },
        Task {
            id: "task-3".to_string(),
            description: "Write tests".to_string(),
            status: "pending".to_string(),
            assigned_to: None,
        },
    ]
}

fn make_valid_diff(file: &str) -> String {
    format!("--- a/{file}\n+++ b/{file}\n@@ -1 +1 @@\n-old line\n+new line\n")
}

/// The pretty JSON of the hand-off the original fixture builds.
const HANDOFF_JSON: &str = "{\n  \"agent\": \"auditor\",\n  \"target_agent\": \"dev\",\n  \"step_id\": \"step-001\",\n  \"status\": \"rejected\",\n  \"summary\": \"Test handoff summary\",\n  \"decisions\": [\n    \"Decision A\"\n  ],\n  \"files_touched\": [\n    \"src/lib.rs\"\n  ],\n  \"open_questions\": [],\n  \"risks\": [\n    \"Minor risk\"\n  ],\n  \"next_action\": \"Fix the patch\"\n}";

#[test]
fn dev_prompt_includes_step_id() {
    let prompt = dev::build_user_prompt("step-42", "plan content", "memory", None, "workspace");
    assert!(prompt.contains("step-42"));
}

#[test]
fn dev_prompt_includes_plan_content() {
    let prompt = dev::build_user_prompt("step-1", "MY PLAN CONTENT", "memory", None, "workspace");
    assert!(prompt.contains("MY PLAN CONTENT"));
}

#[test]
fn dev_prompt_includes_memory() {
    let prompt = dev::build_user_prompt("step-1", "plan", "MEMORY CONTEXT HERE", None, "workspace");
    assert!(prompt.contains("MEMORY CONTEXT HERE"));
}

#[test]
fn dev_prompt_includes_handoff_when_present() {
    let prompt = dev::build_user_prompt("step-1", "plan", "memory", Some(HANDOFF_JSON), "workspace");
    assert!(prompt.contains("auditor"), "prompt should contain handoff agent");
    assert!(prompt.contains("Test handoff summary"));
}

#[test]
fn dev_prompt_shows_no_handoff_message_when_absent() {
    let prompt = dev::build_user_prompt("step-1", "plan", "memory", None, "workspace");
    assert!(prompt.contains("Nenhum handoff anterior"));
}

#[test]
fn dev_prompt_has_exact_layout() {
    let prompt = dev::build_user_prompt("s", "P", "M", None, "W");
    assert_eq!(
        prompt,
        "Step atual: s\n\nContexto obrigatório:\n[PLAN]\nP\n\n[MEMORY]\nM\n\n[WORKSPACE]\nW\n\n[LAST_HANDOFF]\nNenhum handoff anterior.\n\nRegras: gere apenas diff unified, respeite o escopo do plano, não inclua segredos e não explique nada fora do JSON solicitado."
    );
}

#[test]
fn dev_task_prompt_marks_current_task() {
    let tasks = make_tasks();
    let current = tasks[1].clone();
    let prompt = dev::build_dev_task_prompt("My Plan", &tasks, &current, None);
    assert!(prompt.contains("⏳ CURRENT"), "current task should be marked");
    assert!(prompt.contains("Implement auth"));
}

#[test]
fn dev_task_prompt_marks_completed_tasks() {
    let tasks = make_tasks();
    let current = tasks[1].clone();
    let prompt = dev::build_dev_task_prompt("My Plan", &tasks, &current, None);
    assert!(prompt.contains("✅ done"), "completed task should be marked");
    assert!(prompt.contains("Setup database"));
}

#[test]
fn dev_task_prompt_marks_pending_tasks() {
    let tasks = make_tasks();
    let current = tasks[1].clone();
    let prompt = dev::build_dev_task_prompt("My Plan", &tasks, &current, None);
    assert!(prompt.contains("⬜ pending"), "pending task should be marked");
}

#[test]
fn dev_task_prompt_includes_user_notes() {
    let tasks = make_tasks();
    let current = tasks[1].clone();
    let prompt = dev::build_dev_task_prompt("My Plan", &tasks, &current, Some("Focus on JWT tokens"));
    assert!(prompt.contains("Focus on JWT tokens"));
    assert!(prompt.contains("NOTAS DO HUMANO"));
}

#[test]
fn dev_task_prompt_omits_notes_section_when_empty() {
    let tasks = make_tasks();
    let current = tasks[1].clone();
    let prompt = dev::build_dev_task_prompt("My Plan", &tasks, &current, None);
    assert!(!prompt.contains("NOTAS DO HUMANO"));
}

#[test]
fn dev_task_prompt_omits_notes_when_whitespace_only() {
    let tasks = make_tasks();
    let current = tasks[1].clone();
    let prompt = dev::build_dev_task_prompt("My Plan", &tasks, &current, Some("   "));
    assert!(!prompt.contains("NOTAS DO HUMANO"));
}

#[test]
fn dev_task_prompt_includes_plan_title() {
    let tasks = make_tasks();
    let current = tasks[0].clone();
    let prompt = dev::build_dev_task_prompt("Grand Refactoring Plan", &tasks, &current, None);
    assert!(prompt.contains("Grand Refactoring Plan"));
}

#[test]
fn dev_task_prompt_lists_every_task_with_its_marker() {
    let mut tasks = make_tasks();
    tasks.push(Task {
        id: "task-4".to_string(),
        description: "Ship".to_string(),
        status: "blocked".to_string(),
        assigned_to: None,
    });
    let current = tasks[2].clone();
    let prompt = dev::build_dev_task_prompt("T", &tasks, &current, Some("  be careful  "));
    assert!(prompt.starts_with("## MODO DEV ORIENTADO A TAREFAS (Passo 5)\n\nPlano: T\n\n### Progresso do Todo List\n\n"));
    assert!(prompt.contains(
        "- ✅ done — Setup database\n- ⏳ in_progress (resetado) — Implement auth (@dev)\n- ⏳ CURRENT — Write tests\n- [!] blocked — Ship\n\n### TAREFA ATUAL\n\nID: task-3\nDescrição:\nWrite tests\n\n"
    ));
    assert!(prompt.contains("### NOTAS DO HUMANO (gate inter-tarefa)\n\nbe careful\n\n"));
    assert!(prompt.ends_with("(sem fences, sem texto extra).\n"));
}

#[test]
fn system_prompts_ask_for_raw_json() {
    assert!(dev::system_prompt().starts_with("You are an AI Dev agent."));
    assert!(dev::system_prompt().ends_with("Raw JSON only."));
    assert!(auditor::system_prompt().contains("\\\"approved\\\": <bool>"));
}

#[test]
fn auditor_prompt_includes_diff() {
    let diff = make_valid_diff("src/lib.rs");
    let prompt = auditor::build_user_prompt(
        "step-001",
        "plan",
        "memory",
        None,
        &diff,
        &["src/lib.rs".to_string()],
        "ok",
    );
    assert!(prompt.contains(&diff));
}

#[test]
fn auditor_prompt_includes_apply_check_result() {
    let prompt =
        auditor::build_user_prompt("step-001", "plan", "memory", None, "diff content", &[], "APPLY CHECK OK");
    assert!(prompt.contains("APPLY CHECK OK"));
}

#[test]
fn auditor_prompt_shows_none_when_no_files() {
    let prompt = auditor::build_user_prompt("step-001", "plan", "memory", None, "diff", &[], "ok");
    assert!(prompt.contains("(none)"));
}

#[test]
fn auditor_prompt_includes_files_modified() {
    let files = vec!["src/lib.rs".to_string(), "src/main.rs".to_string()];
    let prompt = auditor::build_user_prompt("step-001", "plan", "memory", None, "diff", &files, "ok");
    assert!(prompt.contains("src/lib.rs"));
    assert!(prompt.contains("src/main.rs"));
    assert!(prompt.contains("[FILES_MODIFIED]\nsrc/lib.rs, src/main.rs\n\n[PATCH]"));
    assert!(prompt.contains("[HANDOFF]\nNo handoff available.\n\n"));
}

fn response(text: &str) -> ProviderResponse {
    ProviderResponse {
        text: text.to_string(),
        model: "mock-model".to_string(),
        finish_reason: "stop".to_string(),
        provider: "mock".to_string(),
    }
}

#[test]
fn dev_reply_is_accepted_only_when_valid() {
    let good = DevResponse {
        step_id: "step-001".to_string(),
        summary: "Adds hello function".to_string(),
        files_touched: vec!["src/lib.rs".to_string()],
        diff: make_valid_diff("src/lib.rs"),
        tests_suggested: vec!["cargo test".to_string()],
        risks: vec![],
    };
    let call = dev::accept_reply("p".to_string(), response("raw"), good.clone()).expect("valid reply");
    assert_eq!(call.parsed.summary, "Adds hello function");
    assert_eq!(call.prompt, "p");
    let mut bad = good;
    bad.diff = "  ".to_string();
    let err = dev::accept_reply("p".to_string(), response("raw"), bad).unwrap_err();
    assert_eq!(err.message(), "diff cannot be empty");
}

#[test]
fn audit_reply_is_accepted_only_when_valid() {
    let good = AuditResponse {
        approved: true,
        score: 88,
        problems: vec![],
        required_changes: vec![],
        blocked_reason: None,
    };
    let call = auditor::accept_reply("p".to_string(), response("raw"), good.clone()).expect("valid reply");
    assert!(call.parsed.approved);
    assert_eq!(call.parsed.score, 88);
    let mut bad = good;
    bad.score = 101;
    assert!(auditor::accept_reply("p".to_string(), response("raw"), bad).is_err());
}

#[test]
fn snapshot_rules_skip_tool_folders_and_trim_entries() {
    assert!(is_snapshot_ignored(".git"));
    assert!(is_snapshot_ignored("node_modules"));
    assert!(is_snapshot_ignored("target"));
    assert!(!is_snapshot_ignored("src"));
    assert_eq!(snapshot_entry("src/lib.rs", "fn a() {}\n\n  "), "### src/lib.rs\n```\nfn a() {}\n```\n\n");
    assert_eq!(snapshot_text(String::new()), EMPTY_SNAPSHOT);
    assert_eq!(snapshot_text("x".to_string()), "x");
}

#[test]
fn snapshot_returns_default_message_on_empty_workspace() {
    // A workspace with no readable file yields no entries.
    let snapshot = snapshot_text(String::new());
    assert!(
        snapshot.contains("vazio") || snapshot.contains("nenhum"),
        "empty workspace should return descriptive message, got: {snapshot}"
    );
}

use ai_orchestrator::kernel::cli_adapter::{
    adapter_for_command, available_adapters, builtin_adapters, resolve_command, BuiltinAdapter, CliAdapter, Codex, Gemini,
};
use ai_orchestrator::kernel::cli_runner::{
    child_env, cli_binary, cli_choice, detect_available_clis, failure_message, finish_output, known_clis,
    shell_quote, stderr_is_noise, CliChoice, SessionRead, SessionWait,
};

#[test]
fn resolve_command_expands_known_ids() {
    assert_eq!(resolve_command("codex"), "codex exec --skip-git-repo-check");
    assert_eq!(resolve_command("gemini"), "gemini");
    assert_eq!(resolve_command("  codex  "), "codex exec --skip-git-repo-check");
}

#[test]
fn resolve_command_keeps_custom_and_flagged_commands() {
    assert_eq!(resolve_command("codex exec --foo"), "codex exec --foo");
    assert_eq!(resolve_command("minha-cli"), "minha-cli");
    assert_eq!(resolve_command("llm -m gpt-4o"), "llm -m gpt-4o");
}

#[test]
fn resolve_command_returns_unknown_input_intact() {
    assert_eq!(resolve_command("  minha-cli "), "  minha-cli ");
    assert_eq!(resolve_command(" codex exec --foo "), " codex exec --foo ");
    assert_eq!(resolve_command(" gemini\n"), "gemini");
}

#[test]
fn adapter_for_command_matches_by_binary() {
    assert_eq!(
        adapter_for_command("codex exec --skip-git-repo-check").map(|a| a.id()),
        Some("codex")
    );
    assert_eq!(adapter_for_command("gemini").map(|a| a.id()), Some("gemini"));
    assert!(adapter_for_command("desconhecida").is_none());
}

#[test]
fn gemini_carries_trust_env() {
    let g = Gemini;
    assert_eq!(g.env(), vec![("GEMINI_CLI_TRUST_WORKSPACE", "true")]);
    assert!(Codex.env().is_empty());
}

#[test]
fn clean_output_trims_by_default() {
    assert_eq!(Codex.clean_output("  {\"ok\":true}\n\n"), "{\"ok\":true}");
}

#[test]
fn builtin_adapters_are_gemini_then_codex() {
    let ids: Vec<&str> = builtin_adapters().iter().map(|a| a.id()).collect();
    assert_eq!(ids, vec!["gemini", "codex"]);
    let names: Vec<&str> = builtin_adapters().iter().map(|a| a.display_name()).collect();
    assert_eq!(names, vec!["Google Gemini", "OpenAI Codex"]);
}

#[test]
fn adapter_for_command_ignores_leading_spaces_and_empty_input() {
    assert_eq!(adapter_for_command("   gemini --yolo").map(|a| a.id()), Some("gemini"));
    assert!(adapter_for_command("   ").is_none());
    assert!(adapter_for_command("").is_none());
}

#[test]
fn shell_quote_wraps_and_escapes_single_quotes() {
    assert_eq!(shell_quote("abc"), "'abc'");
    assert_eq!(shell_quote("it's"), "'it'\\''s'");
    assert_eq!(shell_quote(""), "''");
}

#[test]
fn run_cli_trusts_gemini_workspace_for_child_processes() {
    // The environment every child process of `run_cli` is started with.
    let env = child_env("printf '%s' \"$GEMINI_CLI_TRUST_WORKSPACE\"");
    let value = env.iter().find(|(k, _)| *k == "GEMINI_CLI_TRUST_WORKSPACE").map(|(_, v)| *v);
    assert_eq!(value.map(|v| v.trim()), Some("true"));
}

#[test]
fn child_env_always_trusts_the_gemini_workspace() {
    assert_eq!(child_env("printf hi"), vec![("GEMINI_CLI_TRUST_WORKSPACE", "true")]);
    assert_eq!(
        child_env("gemini -p"),
        vec![("GEMINI_CLI_TRUST_WORKSPACE", "true"), ("GEMINI_CLI_TRUST_WORKSPACE", "true")]
    );
}

#[test]
fn known_clis_and_detection_keep_order() {
    let all = known_clis();
    assert_eq!(all.len(), 7);
    assert_eq!(all[0], ("gemini", "Google Gemini CLI"));
    let found = detect_available_clis(&[false, true, false, false, false, false, true]);
    assert_eq!(found, vec![("grok", "Grok Build"), ("copilot", "GitHub Copilot CLI")]);
    assert!(detect_available_clis(&[false; 7]).is_empty());
}

#[test]
fn stderr_noise_is_blank_or_color_warning() {
    assert!(stderr_is_noise("   "));
    assert!(stderr_is_noise("warning: 256-color support not detected"));
    assert!(!stderr_is_noise("real error"));
}

#[test]
fn failure_message_mentions_trimmed_stderr() {
    assert_eq!(
        failure_message("gemini", "exit status: 1", "  boom \n"),
        "CLI 'gemini' retornou exit code exit status: 1: boom"
    );
    assert_eq!(
        failure_message("gemini", "exit status: 2", "   "),
        "CLI 'gemini' retornou exit code exit status: 2"
    );
}

#[test]
fn finish_output_cleans_only_for_known_adapters() {
    assert_eq!(finish_output("codex exec", "  x \n".to_string()), "x");
    assert_eq!(finish_output("my-cli", "  x \n".to_string()), "  x \n");
}

#[test]
fn cli_binary_is_first_word() {
    assert_eq!(cli_binary("  llm -m gpt-4o"), Some("llm".to_string()));
    assert_eq!(cli_binary("  "), None);
}

#[test]
fn cli_choice_reads_menu_numbers() {
    assert_eq!(cli_choice(" 2 \n", 3), CliChoice::Available(1));
    assert_eq!(cli_choice("4", 3), CliChoice::Custom);
    assert_eq!(cli_choice("5", 3), CliChoice::Manual);
    assert_eq!(cli_choice("abc", 3), CliChoice::Manual);
    assert_eq!(cli_choice("+1", 3), CliChoice::Available(0));
}

#[test]
fn session_wait_ends_after_three_idle_reads() {
    let mut w = SessionWait::new();
    assert_eq!(w.read(false), SessionRead::More);
    assert_eq!(w.read(true), SessionRead::More);
    assert_eq!(w.read(true), SessionRead::More);
    assert_eq!(w.read(true), SessionRead::Done);
}

#[test]
fn session_wait_times_out_without_output() {
    let mut w = SessionWait::new();
    for _ in 0..29 {
        assert_eq!(w.read(true), SessionRead::More);
    }
    assert_eq!(w.read(true), SessionRead::TimedOut);
}

#[test]
fn resolving_twice_changes_nothing() {
    for input in ["codex", "  gemini ", "codex exec --foo", "minha-cli", "", "llm -m gpt-4o"] {
        let once = resolve_command(input);
        assert_eq!(resolve_command(&once), once);
    }
}

#[test]
fn available_adapters_keep_installed_ones_in_order() {
    assert_eq!(available_adapters(&[true, true]).len(), 2);
    let only_codex = available_adapters(&[false, true]);
    assert_eq!(only_codex.len(), 1);
    assert_eq!(only_codex[0].id(), "codex");
    assert!(available_adapters(&[false, false]).is_empty());
}

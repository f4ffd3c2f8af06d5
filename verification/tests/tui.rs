use ai_orchestrator::kernel::db::{EventRow, ProjectSummary};
use ai_orchestrator::kernel::stream::{GateDecision, LineOrigin, LogEvent};
use ai_orchestrator::schemas::Task;
use ai_orchestrator::tui::agent_terminal::{classify_agent_line, AgentTerminal, AgentTerminalRole};
use ai_orchestrator::tui::clipboard::{base64_encode, osc52_sequence};
use ai_orchestrator::tui::dashboard::{compute_progress, feed_line, memory_panel_text, task_symbol};
use ai_orchestrator::tui::home::{menu_item, progress_bar, tasks_line, HomeState, MENU_LEN};
use ai_orchestrator::tui::prompt::{parse_usize, PromptState};
use ai_orchestrator::tui::running::ExecState;
use ai_orchestrator::tui::state::{Drain, TuiState};
use ai_orchestrator::tui::{AppView, Key, LoopCmd, SelectorCtx};

use ai_orchestrator::tui::deep_scan::{extract_metadata_from_path, path_hash, scan_event_type};
use ai_orchestrator::kernel::db::EventType;
use ai_orchestrator::tui::deep_scan::{collect_memory_pages, MemoryPageInfo};
use ai_orchestrator::tui::deep_scan::memory_feed;
use ai_orchestrator::tui::deep_scan::{run_memory_text, run_page_path, scan_report};

fn task(id: &str, status: &str) -> Task {
    Task { id: id.to_string(), description: format!("tarefa {}", id), status: status.to_string(), assigned_to: None }
}

#[test]
fn base64_encodes_known_values() {
    assert_eq!(base64_encode(b""), "");
    assert_eq!(base64_encode(b"M"), "TQ==");
    assert_eq!(base64_encode(b"Ma"), "TWE=");
    assert_eq!(base64_encode(b"Man"), "TWFu");
    assert_eq!(base64_encode(b"hello world"), "aGVsbG8gd29ybGQ=");
}

#[test]
fn osc52_wraps_encoded_text() {
    assert_eq!(osc52_sequence("Man"), "\x1b]52;c;TWFu\x07");
}

#[test]
fn classify_routes_lines_to_panes() {
    assert_eq!(classify_agent_line("══ Turno 2 | Architect (gemini) ══"), Some(AgentTerminalRole::Architect));
    assert_eq!(classify_agent_line("══ TURNO 3 | REVISOR (codex) ══"), Some(AgentTerminalRole::Revisor));
    assert_eq!(classify_agent_line("⏳ IA Auditora analisando..."), Some(AgentTerminalRole::Auditor));
    assert_eq!(classify_agent_line("⏳ IA Dev gerando diff"), Some(AgentTerminalRole::Dev));
    assert_eq!(classify_agent_line("Diff aprovado pelo humano"), Some(AgentTerminalRole::Dev));
    assert_eq!(classify_agent_line("linha qualquer"), None);
}

#[test]
fn role_from_origin_matches() {
    assert_eq!(AgentTerminalRole::from_origin(LineOrigin::Architect), AgentTerminalRole::Architect);
    assert_eq!(AgentTerminalRole::from_origin(LineOrigin::Revisor), AgentTerminalRole::Revisor);
    assert_eq!(AgentTerminalRole::from_origin(LineOrigin::Dev), AgentTerminalRole::Dev);
    assert_eq!(AgentTerminalRole::from_origin(LineOrigin::Auditor), AgentTerminalRole::Auditor);
}

#[test]
fn pane_keeps_last_lines_and_clamps_scroll() {
    let mut t = AgentTerminal::new("Dev");
    assert!(t.is_empty());
    for i in 0..300 {
        t.push_line(format!("linha {}", i));
    }
    let text = t.full_text();
    let lines: Vec<&str> = text.split('\n').collect();
    assert_eq!(lines.len(), 250);
    assert_eq!(lines[0], "linha 50");
    assert_eq!(lines[249], "linha 299");
    t.scroll_up(1000);
    assert_eq!(t.panel_title(false), " Dev +249  ");
    t.scroll_down(9);
    assert_eq!(t.panel_title(true), " ● Dev +240  ");
    t.scroll_bottom();
    assert_eq!(t.panel_title(false), " Dev ");
}

#[test]
fn pane_top_line_shows_the_tail() {
    let mut t = AgentTerminal::new("Dev");
    assert_eq!(t.top_line(10), 0);
    for i in 0..20 {
        t.push_line(format!("{}", i));
    }
    assert_eq!(t.top_line(10), 12);
    t.scroll_up(5);
    assert_eq!(t.top_line(10), 7);
}

#[test]
fn running_screen_routes_lines() {
    let mut e = ExecState::new("Execução".to_string());
    e.push_line("⏳ IA Dev gerando diff".to_string());
    e.push_line("continuação do dev".to_string());
    assert_eq!(e.active_role, Some(AgentTerminalRole::Dev));
    assert_eq!(e.focused_role, Some(AgentTerminalRole::Dev));
    assert_eq!(e.dev_terminal.full_text(), "⏳ IA Dev gerando diff\ncontinuação do dev");
    assert!(e.auditor_terminal.is_empty());
    e.push_line("✔ Auditora aprovou".to_string());
    assert_eq!(e.auditor_terminal.full_text(), "✔ Auditora aprovou");
    assert_eq!(e.lines.len(), 3);
    assert_eq!(e.visible_roles(), vec![AgentTerminalRole::Dev, AgentTerminalRole::Auditor]);
    e.cycle_focus();
    assert_eq!(e.focused_role(), AgentTerminalRole::Auditor);
    assert!(!e.has_errors());
    e.push_error("falhou");
    assert!(e.has_errors());
    assert_eq!(e.lines.last().unwrap(), "ERRO: falhou");
}

#[test]
fn home_cursor_stays_in_menu() {
    let mut h = HomeState::new();
    h.move_up();
    assert_eq!(h.selected(), 0);
    for _ in 0..10 {
        h.move_down();
    }
    assert_eq!(h.selected(), MENU_LEN - 1);
    assert_eq!(menu_item(0).0, "1. Novo Plano");
    assert_eq!(menu_item(5).0, "6. Sair");
}

#[test]
fn progress_bar_and_tasks_line() {
    assert_eq!(progress_bar(5), "█████░░░░░░░░░░░░░░░");
    assert_eq!(tasks_line(0, 0), "Sem tarefas registradas");
    assert_eq!(tasks_line(1, 4), "[█████░░░░░░░░░░░░░░░] 25%  (1/4)");
}

#[test]
fn dashboard_progress_counts_completed() {
    assert_eq!(compute_progress(&[]), "Sem tarefas");
    let tasks = vec![task("1", "completed"), task("2", "pending")];
    assert_eq!(compute_progress(&tasks), "Progresso: [██████████░░░░░░░░░░] 50% (1/2)");
    assert_eq!(task_symbol("completed"), "✅");
    assert_eq!(task_symbol("in_progress"), "⏳");
    assert_eq!(task_symbol("blocked"), "[!]");
    assert_eq!(task_symbol("pending"), "[ ]");
}

#[test]
fn parse_usize_follows_std() {
    assert_eq!(parse_usize("12"), Some(12));
    assert_eq!(parse_usize("+7"), Some(7));
    assert_eq!(parse_usize(""), None);
    assert_eq!(parse_usize("+"), None);
    assert_eq!(parse_usize("1a"), None);
    assert_eq!(parse_usize("-1"), None);
    assert_eq!(parse_usize("99999999999999999999999"), None);
}

#[test]
fn continue_form_collects_answers_and_defaults_turns() {
    let mut p = PromptState::for_continue("plan-1".to_string());
    assert_eq!(p.progress(), "1/4");
    // A blank required answer is refused.
    assert_eq!(p.enter(), LoopCmd::Continue);
    assert_eq!(p.current, 0);
    for c in "gemini".chars() {
        p.type_char(c);
    }
    assert_eq!(p.enter(), LoopCmd::Continue);
    // The optional revisor is left empty.
    assert_eq!(p.enter(), LoopCmd::Continue);
    for c in "comece".chars() {
        p.type_char(c);
    }
    p.type_char('x');
    p.backspace();
    assert_eq!(p.enter(), LoopCmd::Continue);
    assert_eq!(p.progress(), "4/4");
    // An empty turn limit takes its default of ten.
    let cmd = p.enter();
    assert_eq!(
        cmd,
        LoopCmd::StartPlanning {
            plan_id: "plan-1".to_string(),
            cli1: "gemini".to_string(),
            cli2: None,
            initial_notes: "comece".to_string(),
            max_turns: 10,
        }
    );
}

#[test]
fn enrich_form_gives_gate_decision() {
    let mut p = PromptState::for_enrich();
    for c in "ajuste".chars() {
        p.type_char(c);
    }
    assert_eq!(p.enter(), LoopCmd::GateDecide(GateDecision::Enrich("ajuste".to_string())));
}

#[test]
fn home_keys_open_entries() {
    let mut s = TuiState::new(ProjectSummary::default(), Vec::new(), String::new());
    assert_eq!(s.view, AppView::Home);
    assert_eq!(s.dispatch_key(Key::Char('q')), LoopCmd::Quit);
    assert_eq!(s.dispatch_key(Key::Char('r')), LoopCmd::ReloadMemoryFeed);
    assert_eq!(s.dispatch_key(Key::Char('5')), LoopCmd::OpenMemory);
    assert_eq!(s.dispatch_key(Key::Char('6')), LoopCmd::Quit);
    assert_eq!(
        s.dispatch_key(Key::Char('2')),
        LoopCmd::GoTo(AppView::Selector(SelectorCtx::ForContinue))
    );
    assert_eq!(s.selector_ctx, SelectorCtx::ForContinue);
    s.dispatch_key(Key::Down);
    s.dispatch_key(Key::Down);
    s.dispatch_key(Key::Down);
    assert_eq!(
        s.dispatch_key(Key::Enter),
        LoopCmd::GoTo(AppView::Selector(SelectorCtx::ForDashboard))
    );
    match s.dispatch_key(Key::Char('1')) {
        LoopCmd::GoTo(AppView::Prompt(p)) => assert_eq!(p.title, "Novo Plano"),
        other => panic!("unexpected {:?}", other),
    }
}

#[test]
fn scan_metadata_names_runs_and_folders() {
    assert_eq!(extract_metadata_from_path("handoffs/run_abc.md"), ("handoff_created", "abc".to_string()));
    assert_eq!(extract_metadata_from_path("handoffs/run_abc/x.json"), ("handoff_created", "abc".to_string()));
    assert_eq!(
        extract_metadata_from_path("handoffs/run_abcd1234/task_5678abcd.md"),
        ("handoff_created", "abcd1234".to_string())
    );
    assert_eq!(
        extract_metadata_from_path("handoffs/foo.md"),
        ("handoff_created", "scan-c61a73b3a0587b7b".to_string())
    );
    assert_eq!(
        extract_metadata_from_path("decisions/d1.md"),
        ("gate_passed", "scan-decisions-7849ebf6b54012e0".to_string())
    );
    assert_eq!(extract_metadata_from_path("plans/p.md"), ("gate_enriched", "scan-notes-000adb864b470c5a".to_string()));
    assert_eq!(extract_metadata_from_path("notes/n.md"), ("gate_enriched", "scan-notes-000aae39f91ecda5".to_string()));
    assert_eq!(extract_metadata_from_path("other.md"), ("handoff_created", "scan-other-000002dfba312135".to_string()));
    assert_eq!(path_hash(""), 0);
    assert_eq!(path_hash("a"), 97);
    assert_eq!(scan_event_type("gate_passed"), EventType::GatePassed);
    assert_eq!(scan_event_type("handoff_created"), EventType::HandoffCreated);
    assert_eq!(scan_event_type("gate_enriched"), EventType::GateEnriched);
}

#[test]
fn memory_search_output_lists_each_page_once() {
    let output = "  notes/a.md  rank=1.5\n    Título A\n    snippet <b>\n  notes/b.md  rank=0.3\n    <mark>x</mark>\n    Título B\n  notes/a.md  rank=0.1\n    Outro\n  semcaminho  rank=2\n    Nada\n";
    let mut pages: Vec<MemoryPageInfo> = Vec::new();
    collect_memory_pages(output, &mut pages);
    assert_eq!(
        pages,
        vec![
            MemoryPageInfo { path: "notes/a.md".to_string(), title: "Título A".to_string() },
            MemoryPageInfo { path: "notes/b.md".to_string(), title: "Título B".to_string() },
        ]
    );
    // A second search adds only new pages.
    collect_memory_pages("  notes/b.md  rank=1\n    Outra B\n  plans/c.md  rank=1\n    C\n", &mut pages);
    assert_eq!(pages.len(), 3);
    assert_eq!(pages[2].path, "plans/c.md");
    assert_eq!(pages[1].title, "Título B");
}

#[test]
fn memory_feed_cleans_and_cuts() {
    assert_eq!(memory_feed("   \n"), None);
    assert_eq!(memory_feed("a <mark>b</mark>\r\nc\n"), Some("a b\nc".to_string()));
    let long: String = (0..60).map(|i| format!("l{}\n", i)).collect();
    let feed = memory_feed(&long).unwrap();
    assert_eq!(feed.lines().count(), 50);
    assert!(feed.ends_with("l49"));
}

#[test]
fn run_memory_text_prefers_the_run_page() {
    assert_eq!(run_page_path("r1"), "handoffs/run_r1.md");
    assert_eq!(run_memory_text("r1", Some("corpo"), Some("x")), "📄 Handoff vinculado ao run r1\n\ncorpo");
    assert_eq!(run_memory_text("r1", Some("  "), Some("busca")), "🔍 Busca por run_id r1 (melhor match)\n\nbusca");
    assert!(run_memory_text("r1", None, None).starts_with("Nenhuma página de handoff encontrada no ai-memory para o run_id:\nr1\n\n"));
    assert_eq!(scan_report(3, 1, 0), "\n✅ Deep Scan concluído!\n   Ingeridos: 3\n   Já existiam: 1\n   Erros: 0");
}

#[test]
fn run_page_is_filed_under_its_run() {
    assert_eq!(extract_metadata_from_path(&run_page_path("abc123")), ("handoff_created", "abc123".to_string()));
}

#[test]
fn log_events_reach_the_running_log() {
    let mut s = TuiState::new(ProjectSummary::default(), Vec::new(), String::new());
    s.view = AppView::Executing;
    assert_eq!(s.on_log_event(LogEvent::Line("compilando".to_string())), Drain::Keep);
    assert_eq!(s.running.lines.last().map(|l| l.as_str()), Some("compilando"));
    assert_eq!(s.on_log_event(LogEvent::Failed("sem rede".to_string())), Drain::Failed);
    assert_eq!(s.running.lines.last().map(|l| l.as_str()), Some("ERRO: sem rede"));
    assert_eq!(s.view, AppView::Executing);
}

fn event(seq: i64, kind: &str, summary: Option<&str>) -> EventRow {
    EventRow {
        id: seq,
        run_id: "r1".to_string(),
        sequence: seq,
        event_type: kind.to_string(),
        from_agent: Some("dev".to_string()),
        to_agent: None,
        content_summary: summary.map(|t| t.to_string()),
        enriched_by_human: false,
        human_notes: None,
        memory_url: None,
        timestamp: "2024-05-01T10:20:30.123Z".to_string(),
    }
}

#[test]
fn dashboard_feed_and_memory_panel_texts() {
    assert_eq!(feed_line(&event(1, "prompt_sent", Some("ola"))), "[2024-05-01T10:20] dev → ola");
    let events = vec![event(1, "prompt_sent", None), event(2, "audit_rejected", Some("nota 30"))];
    // Row 0 is the newest event.
    assert_eq!(
        memory_panel_text(&events, Some(0), None),
        "── Evento #2 ──\nTipo : audit_rejected\nDe   : dev → -\nTs   : 2024-05-01T10:20:30\n\nnota 30\n────────────────\n\nEnter → carregar handoff do ai-memory"
    );
    assert_eq!(
        memory_panel_text(&events, Some(1), Some("pagina")),
        "── Evento #1 ──\nTipo : prompt_sent\nDe   : dev → -\nTs   : 2024-05-01T10:20:30\n\n(sem resumo)\n────────────────\n\npagina"
    );
    assert_eq!(
        memory_panel_text(&events, None, None),
        "Selecione um evento com ↑↓\nEnter → carregar handoff do ai-memory\n\n(Fase 4.4 ativa)"
    );
}

#[test]
fn drain_stops_at_the_first_gate_and_keeps_the_rest_queued() {
    let mut s = TuiState::new(ProjectSummary::default(), Vec::new(), String::new());
    s.view = AppView::Executing;
    let mut queue = std::collections::VecDeque::new();
    queue.push_back(LogEvent::Line("um".to_string()));
    queue.push_back(LogEvent::Line("dois".to_string()));
    queue.push_back(LogEvent::GateNeeded { content: "diff".to_string(), gate_type: "diff_review".to_string() });
    queue.push_back(LogEvent::Line("tres".to_string()));
    queue.push_back(LogEvent::Done);
    assert_eq!(s.drain_events(&mut queue), Drain::Stop);
    assert_eq!(s.view, AppView::Gate);
    assert_eq!(s.running.gate_content.as_deref(), Some("diff"));
    let logged: Vec<&str> = s.running.lines.iter().map(|l| l.as_str()).collect();
    assert_eq!(logged, vec!["um", "dois"]);
    assert_eq!(queue.len(), 2);
    s.gate_decided();
    assert_eq!(s.drain_events(&mut queue), Drain::Finished);
    assert_eq!(s.view, AppView::Home);
    assert!(queue.is_empty());
    assert_eq!(s.drain_events(&mut queue), Drain::Keep);
}

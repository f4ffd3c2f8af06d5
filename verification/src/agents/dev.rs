//! The Dev agent's prompts.

use vstd::prelude::*;

use crate::agents::AgentCall;
use crate::kernel::text::{
    chars_of, is_blank, is_whitespace, push_range, push_str, spec_trim, spec_trim_end, str_eq, trim,
};
use crate::providers::ProviderResponse;
use crate::schemas::{spec_dev_response_check, spec_outcome, DevResponse, Task, ValidationError};

verus! {

broadcast use vstd::string::group_string_axioms;

/// The Dev agent's system prompt.
pub const SYSTEM_PROMPT: &'static str = r#"You are an AI Dev agent. Your ONLY output must be valid JSON matching exactly:
{
  \"step_id\": \"<string>\",
  \"summary\": \"<string>\",
  \"files_touched\": [\"<string>\"],
  \"diff\": \"<unified diff string>\",
  \"tests_suggested\": [\"<string>\"],
  \"risks\": [\"<string>\"]
}
No markdown, no explanation, no code blocks. Raw JSON only."#;

/// The closing rules of a single-step prompt.
pub const STEP_RULES: &'static str = "\n\nRegras: gere apenas diff unified, respeite o escopo do plano, não inclua segredos e não explique nada fora do JSON solicitado.";

/// What the prompt says when there is no previous hand-off.
pub const NO_HANDOFF: &'static str = "Nenhum handoff anterior.";

/// The closing instructions of a task prompt.
pub const TASK_INSTRUCTIONS: &'static str = "### Instruções\n- Implemente **exclusivamente** o escopo da TAREFA ATUAL acima.\n- Não altere tarefas que não sejam a current.\n- Gere apenas Unified Diff válido no campo `diff` do JSON.\n- Respeite o plano geral e o contexto de memory.\n- Após aprovação da auditoria, o orquestrador marcará esta tarefa como 'done'.\n\nLembrete: sua resposta DEVE ser JSON válido conforme o system prompt (sem fences, sem texto extra).\n";

/// The Dev agent's system prompt.
pub fn system_prompt() -> (r: &'static str)
    ensures
        r@ == SYSTEM_PROMPT@,
{
    SYSTEM_PROMPT
}

/// The single-step prompt: step, plan, memory, workspace and the last
/// hand-off (already rendered as JSON), in that order.
pub open spec fn spec_user_prompt(
    step_id: Seq<char>,
    plan: Seq<char>,
    memory: Seq<char>,
    handoff: Option<Seq<char>>,
    workspace: Seq<char>,
) -> Seq<char> {
    "Step atual: "@ + step_id + "\n\nContexto obrigatório:\n[PLAN]\n"@ + plan + "\n\n[MEMORY]\n"@ + memory
        + "\n\n[WORKSPACE]\n"@ + workspace + "\n\n[LAST_HANDOFF]\n"@ + match handoff {
        Some(h) => h,
        None => NO_HANDOFF@,
    } + STEP_RULES@
}

/// Builds the single-step prompt. `last_handoff` is the previous hand-off
/// rendered as pretty JSON, if there is one.
pub fn build_user_prompt(
    step_id: &str,
    plan: &str,
    memory: &str,
    last_handoff: Option<&str>,
    workspace_snapshot: &str,
) -> (r: String)
    ensures
        r@ == spec_user_prompt(
            step_id@,
            plan@,
            memory@,
            match last_handoff {
                Some(h) => Some(h@),
                None => None,
            },
            workspace_snapshot@,
        ),
{
    let mut out = String::from_str("Step atual: ");
    push_str(&mut out, step_id);
    push_str(&mut out, "\n\nContexto obrigatório:\n[PLAN]\n");
    push_str(&mut out, plan);
    push_str(&mut out, "\n\n[MEMORY]\n");
    push_str(&mut out, memory);
    push_str(&mut out, "\n\n[WORKSPACE]\n");
    push_str(&mut out, workspace_snapshot);
    push_str(&mut out, "\n\n[LAST_HANDOFF]\n");
    match last_handoff {
        Some(h) => push_str(&mut out, h),
        None => push_str(&mut out, NO_HANDOFF),
    }
    push_str(&mut out, STEP_RULES);
    out
}

/// The progress marker of task `t` when the task being worked on has id
/// `current_id`.
pub open spec fn spec_task_marker(t: Task, current_id: Seq<char>) -> Seq<char> {
    if t.id@ == current_id {
        "⏳ CURRENT"@
    } else if t.status@ == "completed"@ {
        "✅ done"@
    } else if t.status@ == "in_progress"@ {
        "⏳ in_progress (resetado)"@
    } else if t.status@ == "blocked"@ {
        "[!] blocked"@
    } else {
        "⬜ pending"@
    }
}

/// The progress line of task `t`.
pub open spec fn spec_task_line(t: Task, current_id: Seq<char>) -> Seq<char> {
    "- "@ + spec_task_marker(t, current_id) + " — "@ + t.description@ + match t.assigned_to {
        Some(a) => " (@"@ + a@ + ")"@,
        None => Seq::empty(),
    } + "\n"@
}

/// The progress lines of all tasks, in order.
pub open spec fn spec_task_list(tasks: Seq<Task>, current_id: Seq<char>) -> Seq<char>
    decreases tasks.len(),
{
    if tasks.len() == 0 {
        Seq::empty()
    } else {
        spec_task_list(tasks.drop_last(), current_id) + spec_task_line(tasks.last(), current_id)
    }
}

/// The human's notes section: present only when the notes hold more than
/// whitespace.
pub open spec fn spec_notes_section(notes: Option<Seq<char>>) -> Seq<char> {
    match notes {
        Some(n) => if spec_trim(n).len() > 0 {
            "### NOTAS DO HUMANO (gate inter-tarefa)\n\n"@ + spec_trim(n)
                + "\n\nAplique estas notas com prioridade nesta execução da tarefa.\n\n"@
        } else {
            Seq::empty()
        },
        None => Seq::empty(),
    }
}

/// The prompt for one task of an approved plan.
pub open spec fn spec_dev_task_prompt(
    plan_title: Seq<char>,
    tasks: Seq<Task>,
    current: Task,
    notes: Option<Seq<char>>,
) -> Seq<char> {
    "## MODO DEV ORIENTADO A TAREFAS (Passo 5)\n\nPlano: "@ + plan_title
        + "\n\n### Progresso do Todo List\n\n"@ + spec_task_list(tasks, current.id@) + "\n### TAREFA ATUAL\n\nID: "@
        + current.id@ + "\nDescrição:\n"@ + spec_trim(current.description@) + "\n\n"@ + spec_notes_section(notes)
        + TASK_INSTRUCTIONS@
}

/// Appends the progress line of `t`.
fn push_task_line(out: &mut String, t: &Task, current_id: &str)
    ensures
        final(out)@ == old(out)@ + spec_task_line(*t, current_id@),
{
    push_str(out, "- ");
    let marker = if str_eq(t.id.as_str(), current_id) {
        "⏳ CURRENT"
    } else if str_eq(t.status.as_str(), "completed") {
        "✅ done"
    } else if str_eq(t.status.as_str(), "in_progress") {
        "⏳ in_progress (resetado)"
    } else if str_eq(t.status.as_str(), "blocked") {
        "[!] blocked"
    } else {
        "⬜ pending"
    };
    push_str(out, marker);
    push_str(out, " — ");
    push_str(out, t.description.as_str());
    match &t.assigned_to {
        Some(a) => {
            push_str(out, " (@");
            push_str(out, a.as_str());
            push_str(out, ")");
        },
        None => {},
    }
    push_str(out, "\n");
}

/// Builds the prompt for one task of an approved plan: the plan's title, the
/// whole todo list with a progress marker per task, the current task, the
/// human's notes when they hold more than whitespace, and the instructions.
pub fn build_dev_task_prompt(
    plan_title: &str,
    tasks: &[Task],
    current_task: &Task,
    user_notes: Option<&str>,
) -> (r: String)
    ensures
        r@ == spec_dev_task_prompt(
            plan_title@,
            tasks@,
            *current_task,
            match user_notes {
                Some(n) => Some(n@),
                None => None,
            },
        ),
{
    let mut out = String::from_str("## MODO DEV ORIENTADO A TAREFAS (Passo 5)\n\nPlano: ");
    push_str(&mut out, plan_title);
    push_str(&mut out, "\n\n### Progresso do Todo List\n\n");
    let ghost head = out@;
    let mut i: usize = 0;
    while i < tasks.len()
        invariant
            i <= tasks@.len(),
            out@ == head + spec_task_list(tasks@.take(i as int), current_task.id@),
        decreases tasks@.len() - i,
    {
        push_task_line(&mut out, &tasks[i], current_task.id.as_str());
        proof {
            assert(tasks@.take(i + 1).drop_last() =~= tasks@.take(i as int));
            assert(tasks@.take(i + 1).last() == tasks@[i as int]);
        }
        i = i + 1;
    }
    assert(tasks@.take(tasks@.len() as int) =~= tasks@);
    push_str(&mut out, "\n### TAREFA ATUAL\n\nID: ");
    push_str(&mut out, current_task.id.as_str());
    push_str(&mut out, "\nDescrição:\n");
    let desc = trim(current_task.description.as_str());
    push_str(&mut out, desc.as_str());
    push_str(&mut out, "\n\n");
    match user_notes {
        Some(n) => {
            if !is_blank(n) {
                push_str(&mut out, "### NOTAS DO HUMANO (gate inter-tarefa)\n\n");
                let t = trim(n);
                push_str(&mut out, t.as_str());
                push_str(&mut out, "\n\nAplique estas notas com prioridade nesta execução da tarefa.\n\n");
            }
        },
        None => {},
    }
    push_str(&mut out, TASK_INSTRUCTIONS);
    out
}

/// Accepts a parsed Dev reply: it is kept only if it passes validation.
pub fn accept_reply(prompt: String, provider_response: ProviderResponse, parsed: DevResponse) -> (r: Result<
    AgentCall<DevResponse>,
    ValidationError,
>)
    ensures
        match r {
            Ok(call) => spec_dev_response_check(parsed.step_id@, parsed.diff@) is Ok && call.parsed == parsed
                && call.prompt == prompt && call.provider_response == provider_response,
            Err(e) => spec_outcome(Err(e)) == spec_dev_response_check(parsed.step_id@, parsed.diff@),
        },
{
    match parsed.validate() {
        Ok(()) => Ok(AgentCall { parsed, prompt, provider_response }),
        Err(e) => Err(e),
    }
}

// ── The workspace snapshot ────────────────────────────────────────────────

/// The directory and file names the snapshot skips.
pub open spec fn spec_snapshot_ignored(name: Seq<char>) -> bool {
    name == ".git"@ || name == ".ai-orchestrator"@ || name == "target"@ || name == "node_modules"@ || name
        == ".venv"@ || name == "__pycache__"@
}

/// Whether the snapshot skips an entry of this name.
pub fn is_snapshot_ignored(name: &str) -> (r: bool)
    ensures
        r == spec_snapshot_ignored(name@),
{
    str_eq(name, ".git") || str_eq(name, ".ai-orchestrator") || str_eq(name, "target") || str_eq(name, "node_modules")
        || str_eq(name, ".venv") || str_eq(name, "__pycache__")
}

/// The largest file, in bytes, the snapshot includes.
pub const SNAPSHOT_MAX_BYTES: u64 = 65536;

/// The length of `cs` once trailing whitespace is dropped.
fn trim_end_len(cs: &[char]) -> (r: usize)
    ensures
        r <= cs@.len(),
        spec_trim_end(cs@) == cs@.take(r as int),
{
    let mut n = cs.len();
    assert(cs@.take(n as int) =~= cs@);
    while n > 0 && is_whitespace(cs[n - 1])
        invariant
            n <= cs@.len(),
            spec_trim_end(cs@) == spec_trim_end(cs@.take(n as int)),
        decreases n,
    {
        assert(cs@.take(n as int).drop_last() =~= cs@.take(n - 1));
        n = n - 1;
    }
    n
}

/// One file in the snapshot: its path as a heading, then its text without
/// trailing whitespace in a fenced block.
pub fn snapshot_entry(path: &str, content: &str) -> (r: String)
    ensures
        r@ == "### "@ + path@ + "\n```\n"@ + spec_trim_end(content@) + "\n```\n\n"@,
{
    let cs = chars_of(content);
    let n = trim_end_len(cs.as_slice());
    let mut s = String::from_str("### ");
    push_str(&mut s, path);
    push_str(&mut s, "\n```\n");
    push_range(&mut s, cs.as_slice(), 0, n);
    assert(cs@.subrange(0, n as int) =~= cs@.take(n as int));
    push_str(&mut s, "\n```\n\n");
    s
}

/// What the Dev is shown when the snapshot found nothing.
pub const EMPTY_SNAPSHOT: &'static str = "(workspace vazio — nenhum arquivo de texto encontrado)";

/// What the Dev is shown when the workspace cannot be read.
pub const UNREADABLE_SNAPSHOT: &'static str = "(não foi possível ler o workspace)";

/// The snapshot as sent: the entries, or a note that there are none.
pub fn snapshot_text(entries: String) -> (r: String)
    ensures
        r@ == (if entries@.len() == 0 {
            EMPTY_SNAPSHOT@
        } else {
            entries@
        }),
{
    if entries.unicode_len() == 0 {
        String::from_str(EMPTY_SNAPSHOT)
    } else {
        entries
    }
}

} // verus!

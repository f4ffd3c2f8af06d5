//! The Auditor agent's prompts.

use vstd::prelude::*;

use crate::agents::AgentCall;
use crate::kernel::text::{join_strings, push_str, spec_join};
use crate::providers::ProviderResponse;
use crate::schemas::{spec_audit_response_check, spec_outcome, AuditResponse, ValidationError};

verus! {

broadcast use vstd::string::group_string_axioms;

/// The Auditor agent's system prompt.
pub const SYSTEM_PROMPT: &'static str = r#"You are an AI Auditor agent. Your ONLY output must be valid JSON matching exactly:
{
  \"approved\": <bool>,
  \"score\": <integer 0-100>,
  \"problems\": [\"<string>\"],
  \"required_changes\": [\"<string>\"],
  \"blocked_reason\": <string or null>
}
No markdown, no explanation, no code blocks. Raw JSON only."#;

/// What the prompt says when there is no hand-off.
pub const NO_HANDOFF: &'static str = "No handoff available.";

/// The closing request of the review prompt.
pub const REVIEW_REQUEST: &'static str = "\n\nAvalie segurança, escopo, aplicabilidade e qualidade geral. Responda somente no JSON solicitado.";

/// The Auditor agent's system prompt.
pub fn system_prompt() -> (r: &'static str)
    ensures
        r@ == SYSTEM_PROMPT@,
{
    SYSTEM_PROMPT
}

/// The modified files as the prompt lists them: comma-separated, or
/// `(none)`.
pub open spec fn spec_files_line(files: Seq<Seq<char>>) -> Seq<char> {
    if files.len() == 0 {
        "(none)"@
    } else {
        spec_join(files, ", "@)
    }
}

/// The review prompt.
pub open spec fn spec_user_prompt(
    step_id: Seq<char>,
    plan: Seq<char>,
    memory: Seq<char>,
    handoff: Option<Seq<char>>,
    diff: Seq<char>,
    files: Seq<Seq<char>>,
    apply_check_result: Seq<char>,
) -> Seq<char> {
    "Step atual: "@ + step_id + "\n\n[PLAN]\n"@ + plan + "\n\n[MEMORY]\n"@ + memory + "\n\n[HANDOFF]\n"@
        + match handoff {
        Some(h) => h,
        None => NO_HANDOFF@,
    } + "\n\n[FILES_MODIFIED]\n"@ + spec_files_line(files) + "\n\n[PATCH]\n"@ + diff
        + "\n\n[GIT_APPLY_CHECK]\n"@ + apply_check_result + REVIEW_REQUEST@
}

/// Builds the review prompt. `handoff` is the Dev's hand-off rendered as
/// pretty JSON, if there is one.
pub fn build_user_prompt(
    step_id: &str,
    plan: &str,
    memory: &str,
    handoff: Option<&str>,
    diff: &str,
    files_modified: &[String],
    apply_check_result: &str,
) -> (r: String)
    ensures
        r@ == spec_user_prompt(
            step_id@,
            plan@,
            memory@,
            match handoff {
                Some(h) => Some(h@),
                None => None,
            },
            diff@,
            files_modified.deep_view(),
            apply_check_result@,
        ),
{
    let mut out = String::from_str("Step atual: ");
    push_str(&mut out, step_id);
    push_str(&mut out, "\n\n[PLAN]\n");
    push_str(&mut out, plan);
    push_str(&mut out, "\n\n[MEMORY]\n");
    push_str(&mut out, memory);
    push_str(&mut out, "\n\n[HANDOFF]\n");
    match handoff {
        Some(h) => push_str(&mut out, h),
        None => push_str(&mut out, NO_HANDOFF),
    }
    push_str(&mut out, "\n\n[FILES_MODIFIED]\n");
    if files_modified.len() == 0 {
        push_str(&mut out, "(none)");
    } else {
        let files = join_strings(files_modified, ", ");
        push_str(&mut out, files.as_str());
    }
    push_str(&mut out, "\n\n[PATCH]\n");
    push_str(&mut out, diff);
    push_str(&mut out, "\n\n[GIT_APPLY_CHECK]\n");
    push_str(&mut out, apply_check_result);
    push_str(&mut out, REVIEW_REQUEST);
    out
}

/// Accepts a parsed Auditor reply: it is kept only if it passes validation.
pub fn accept_reply(prompt: String, provider_response: ProviderResponse, parsed: AuditResponse) -> (r: Result<
    AgentCall<AuditResponse>,
    ValidationError,
>)
    ensures
        match r {
            Ok(call) => spec_audit_response_check(parsed.score) is Ok && call.parsed == parsed
                && call.prompt == prompt && call.provider_response == provider_response,
            Err(e) => spec_outcome(Err(e)) == spec_audit_response_check(parsed.score),
        },
{
    match parsed.validate() {
        Ok(()) => Ok(AgentCall { parsed, prompt, provider_response }),
        Err(e) => Err(e),
    }
}

} // verus!

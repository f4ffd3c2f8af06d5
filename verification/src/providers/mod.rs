//! The language-model providers the orchestrator can call directly: which
//! one a configuration selects, and the records exchanged with them. The
//! HTTP calls themselves belong to the program around this library.

use vstd::prelude::*;

use crate::kernel::config::Config;
use crate::kernel::text::{push_str, str_eq};

verus! {

broadcast use vstd::string::group_string_axioms;

/// A provider's answer.
#[derive(Debug, Clone)]
pub struct ProviderResponse {
    pub text: String,
    pub model: String,
    pub finish_reason: String,
    pub provider: String,
}

/// One message of a conversation.
#[derive(Debug, Clone)]
pub struct ChatMessage {
    pub role: String,
    pub content: String,
}

/// Why a provider could not be used.
#[derive(Debug)]
pub enum ProviderError {
    /// The API key's environment variable is not set.
    MissingApiKey(&'static str),
    /// The answer did not have the expected shape.
    InvalidResponse(String),
}

impl ProviderError {
    /// The human-readable message.
    pub fn message(&self) -> (r: String)
        ensures
            r@ == (match self {
                ProviderError::MissingApiKey(v) => "missing environment variable "@ + v@,
                ProviderError::InvalidResponse(t) => "provider returned an invalid response: "@ + t@,
            }),
    {
        match self {
            ProviderError::MissingApiKey(v) => {
                let mut s = String::from_str("missing environment variable ");
                push_str(&mut s, v);
                s
            },
            ProviderError::InvalidResponse(t) => {
                let mut s = String::from_str("provider returned an invalid response: ");
                push_str(&mut s, t.as_str());
                s
            },
        }
    }
}

/// The providers there are.
#[derive(Debug, Clone, Copy, PartialEq, Eq)]
pub enum ProviderKind {
    OpenAi,
    Anthropic,
    Gemini,
}

/// The name under which a provider is configured and reports itself.
pub open spec fn spec_provider_name(k: ProviderKind) -> Seq<char> {
    match k {
        ProviderKind::OpenAi => "openai"@,
        ProviderKind::Anthropic => "anthropic"@,
        ProviderKind::Gemini => "gemini"@,
    }
}

/// The environment variable that holds a provider's API key.
pub open spec fn spec_api_key_var(k: ProviderKind) -> Seq<char> {
    match k {
        ProviderKind::OpenAi => "OPENAI_API_KEY"@,
        ProviderKind::Anthropic => "ANTHROPIC_API_KEY"@,
        ProviderKind::Gemini => "GEMINI_API_KEY"@,
    }
}

impl ProviderKind {
    /// The provider's name.
    pub fn name(&self) -> (r: &'static str)
        ensures
            r@ == spec_provider_name(*self),
    {
        match self {
            ProviderKind::OpenAi => "openai",
            ProviderKind::Anthropic => "anthropic",
            ProviderKind::Gemini => "gemini",
        }
    }

    /// The environment variable of the provider's API key.
    pub fn api_key_var(&self) -> (r: &'static str)
        ensures
            r@ == spec_api_key_var(*self),
    {
        match self {
            ProviderKind::OpenAi => "OPENAI_API_KEY",
            ProviderKind::Anthropic => "ANTHROPIC_API_KEY",
            ProviderKind::Gemini => "GEMINI_API_KEY",
        }
    }
}

/// The provider a configuration selects, with the model to ask for.
#[derive(Debug, Clone)]
pub struct ProviderChoice {
    pub kind: ProviderKind,
    pub model: String,
}

/// `create_provider`: the provider named in the configuration (`openai`,
/// `anthropic` or `gemini`) with the configured model; any other name is
/// refused with `unsupported provider: <name>`.
pub fn create_provider(config: &Config) -> (r: Result<ProviderChoice, String>)
    ensures
        match r {
            Ok(c) => c.model == config.model && spec_provider_name(c.kind) == config.provider@,
            Err(msg) => msg@ == "unsupported provider: "@ + config.provider@
                && config.provider@ != "openai"@ && config.provider@ != "anthropic"@
                && config.provider@ != "gemini"@,
        },
{
    let p = config.provider.as_str();
    let kind = if str_eq(p, "openai") {
        ProviderKind::OpenAi
    } else if str_eq(p, "anthropic") {
        ProviderKind::Anthropic
    } else if str_eq(p, "gemini") {
        ProviderKind::Gemini
    } else {
        let mut msg = String::from_str("unsupported provider: ");
        push_str(&mut msg, p);
        return Err(msg);
    };
    Ok(ProviderChoice { kind, model: config.model.clone() })
}

/// One message as Gemini's single prompt shows it: `[role]` on its own line,
/// then the content.
pub open spec fn spec_gemini_part(m: ChatMessage) -> Seq<char> {
    "["@ + m.role@ + "]\n"@ + m.content@
}

/// The whole conversation as one Gemini prompt: the messages, separated by a
/// blank line.
pub open spec fn spec_gemini_prompt(ms: Seq<ChatMessage>) -> Seq<char>
    decreases ms.len(),
{
    if ms.len() == 0 {
        Seq::empty()
    } else if ms.len() == 1 {
        spec_gemini_part(ms[0])
    } else {
        spec_gemini_prompt(ms.drop_last()) + "\n\n"@ + spec_gemini_part(ms.last())
    }
}

/// Folds a conversation into the single prompt Gemini is sent.
pub fn gemini_combined_prompt(messages: &Vec<ChatMessage>) -> (r: String)
    ensures
        r@ == spec_gemini_prompt(messages@),
{
    let mut r = String::new();
    let mut i: usize = 0;
    while i < messages.len()
        invariant
            i <= messages@.len(),
            r@ == spec_gemini_prompt(messages@.take(i as int)),
        decreases messages@.len() - i,
    {
        if i > 0 {
            push_str(&mut r, "\n\n");
        }
        push_str(&mut r, "[");
        push_str(&mut r, messages[i].role.as_str());
        push_str(&mut r, "]\n");
        push_str(&mut r, messages[i].content.as_str());
        proof {
            let t = messages@.take(i + 1);
            assert(t.drop_last() =~= messages@.take(i as int));
            assert(t.last() == messages@[i as int]);
            if i == 0 {
                assert(r@ =~= spec_gemini_prompt(t));
            } else {
                assert(r@ =~= spec_gemini_prompt(t));
            }
        }
        i = i + 1;
    }
    assert(messages@.take(messages@.len() as int) =~= messages@);
    r
}

} // verus!

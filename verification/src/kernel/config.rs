//! The orchestrator's configuration: what `config.json` stores and where the
//! files live. Reading the file and finding the workspace belong to the
//! program around this library.

use vstd::prelude::*;

use super::text::push_str;

verus! {

broadcast use vstd::string::group_string_axioms;

/// The loaded configuration. Paths are kept as text.
#[derive(Debug, Clone)]
pub struct Config {
    pub provider: String,
    pub model: String,
    pub step_id: String,
    pub workspace_dir: String,
    pub orchestrator_dir: String,
    pub dev_cli: Option<String>,
    pub audit_cli: Option<String>,
}

/// What `config.json` holds.
#[derive(Debug, Clone)]
pub struct StoredConfig {
    pub provider: String,
    pub model: String,
    pub step_id: String,
    /// The CLI that acts as the Dev agent (`gemini`, `codex`, `llm`, ...).
    pub dev_cli: Option<String>,
    /// The CLI that acts as the Auditor agent.
    pub audit_cli: Option<String>,
}

impl Default for StoredConfig {
    /// OpenAI's `gpt-4o`, step `001`, no CLI chosen.
    fn default() -> (r: Self)
        ensures
            r.provider@ == "openai"@,
            r.model@ == "gpt-4o"@,
            r.step_id@ == "001"@,
            r.dev_cli is None,
            r.audit_cli is None,
    {
        StoredConfig {
            provider: String::from_str("openai"),
            model: String::from_str("gpt-4o"),
            step_id: String::from_str("001"),
            dev_cli: None,
            audit_cli: None,
        }
    }
}

/// `Path::join` of a relative name onto `base`: a `/` goes between them
/// unless `base` is empty or already ends with one.
pub open spec fn spec_join_path(base: Seq<char>, name: Seq<char>) -> Seq<char> {
    if base.len() == 0 {
        name
    } else if base.last() == '/' {
        base + name
    } else {
        base + "/"@ + name
    }
}

/// Joins a relative name onto a directory.
pub fn join_path(base: &str, name: &str) -> (r: String)
    ensures
        r@ == spec_join_path(base@, name@),
{
    let mut r = String::from_str(base);
    let n = base.unicode_len();
    if n > 0 && base.get_char(n - 1) != '/' {
        push_str(&mut r, "/");
    }
    push_str(&mut r, name);
    r
}

impl Config {
    /// Builds the configuration from what `config.json` stored and the
    /// workspace it was found in.
    pub fn from_stored(stored: StoredConfig, workspace_dir: String) -> (r: Config)
        ensures
            r.provider == stored.provider,
            r.model == stored.model,
            r.step_id == stored.step_id,
            r.dev_cli == stored.dev_cli,
            r.audit_cli == stored.audit_cli,
            r.workspace_dir == workspace_dir,
            r.orchestrator_dir@ == spec_join_path(workspace_dir@, ".ai-orchestrator"@),
    {
        let orchestrator_dir = join_path(workspace_dir.as_str(), ".ai-orchestrator");
        Config {
            provider: stored.provider,
            model: stored.model,
            step_id: stored.step_id,
            dev_cli: stored.dev_cli,
            audit_cli: stored.audit_cli,
            workspace_dir,
            orchestrator_dir,
        }
    }

    /// Where the configuration of the workspace `workspace_dir` is stored:
    /// `.ai-orchestrator/config.json` inside it.
    pub fn config_path(workspace_dir: &str) -> (r: String)
        ensures
            r@ == spec_join_path(spec_join_path(workspace_dir@, ".ai-orchestrator"@), "config.json"@),
    {
        let dir = join_path(workspace_dir, ".ai-orchestrator");
        join_path(dir.as_str(), "config.json")
    }
}

} // verus!

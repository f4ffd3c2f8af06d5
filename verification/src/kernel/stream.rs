//! Messages between the background planning/dev workers and the terminal UI.

use vstd::prelude::*;

use super::text::{chars_of, spec_trim, str_eq, trim};

verus! {

broadcast use vstd::string::group_string_axioms;

/// The agent that wrote a log line, when the producer knows it.
#[derive(Debug, Clone, Copy, PartialEq, Eq)]
pub enum LineOrigin {
    Architect,
    Revisor,
    Dev,
    Auditor,
}

/// What `str::to_lowercase` returns for a text (Unicode lower-case mapping).
pub uninterp spec fn unicode_lowercase(s: Seq<char>) -> Seq<char>;

/// `str::to_lowercase`. The contract names the result; Unicode case
/// mapping is not stated.
#[verifier::external_body]
pub(crate) fn to_lowercase(s: &str) -> (r: String)
    ensures
        r@ == unicode_lowercase(s@),
{
    s.to_lowercase()
}

/// The role that a lower-case role name stands for.
pub open spec fn spec_origin_of_name(name: Seq<char>) -> Option<LineOrigin> {
    if name == "architect"@ || name == "arquiteto"@ {
        Some(LineOrigin::Architect)
    } else if name == "revisor"@ {
        Some(LineOrigin::Revisor)
    } else if name == "dev"@ {
        Some(LineOrigin::Dev)
    } else if name == "auditor"@ || name == "auditora"@ {
        Some(LineOrigin::Auditor)
    } else {
        None
    }
}

impl LineOrigin {
    /// The origin named by an already lower-cased role name (Portuguese or
    /// English), if any.
    pub fn from_lowercase_name(name: &str) -> (r: Option<LineOrigin>)
        ensures
            r == spec_origin_of_name(name@),
    {
        if str_eq(name, "architect") || str_eq(name, "arquiteto") {
            Some(LineOrigin::Architect)
        } else if str_eq(name, "revisor") {
            Some(LineOrigin::Revisor)
        } else if str_eq(name, "dev") {
            Some(LineOrigin::Dev)
        } else if str_eq(name, "auditor") || str_eq(name, "auditora") {
            Some(LineOrigin::Auditor)
        } else {
            None
        }
    }

    /// The origin for a planning role name: trimmed, lower-cased, then
    /// matched against the known names.
    pub fn from_role(role: &str) -> (r: Option<LineOrigin>)
        ensures
            r == spec_origin_of_name(unicode_lowercase(spec_trim(role@))),
    {
        let t = trim(role);
        let lower = to_lowercase(t.as_str());
        LineOrigin::from_lowercase_name(lower.as_str())
    }
}

/// A message from a background worker to the UI.
#[derive(Debug)]
pub enum LogEvent {
    /// A line whose author is unknown (raw CLI output).
    Line(String),
    /// A line whose author is known at the source.
    AgentLine { text: String, origin: LineOrigin },
    /// The worker waits for a human decision; `gate_type` is one of
    /// `planning`, `diff_review`, `apply`, `inter_task` or `error`.
    GateNeeded { content: String, gate_type: String },
    PlanningReady { plan_id: String },
    Done,
    Failed(String),
}

/// A human decision taken at a gate in the UI.
#[derive(Debug, Clone, PartialEq, Eq)]
pub enum GateDecision {
    Continue,
    Review,
    /// Notes to apply before the next turn.
    Enrich(String),
    Finalize,
    Abort,
}

} // verus!

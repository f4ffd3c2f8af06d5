//! The records exchanged between agents and stored by the orchestrator, and
//! their validation rules.

use vstd::prelude::*;

use crate::kernel::text::{copy_opt_string, is_blank, spec_trim};

verus! {

broadcast use vstd::string::group_string_axioms;

/// A record failed validation.
#[derive(Debug, Clone, PartialEq, Eq)]
pub enum ValidationError {
    Message(String),
}

impl ValidationError {
    /// The text of the error.
    pub fn message(&self) -> (r: String)
        ensures
            r@ == (match self {
                ValidationError::Message(m) => m@,
            }),
    {
        match self {
            ValidationError::Message(m) => m.clone(),
        }
    }
}

/// The error whose text is `msg`.
pub open spec fn spec_error(msg: Seq<char>) -> Result<(), Seq<char>> {
    Err(msg)
}

/// A validation result seen through its message.
pub open spec fn spec_outcome(r: Result<(), ValidationError>) -> Result<(), Seq<char>> {
    match r {
        Ok(()) => Ok(()),
        Err(ValidationError::Message(m)) => Err(m@),
    }
}

/// One item of a plan's todo list.
#[derive(Debug, Clone, PartialEq, Eq)]
pub struct Task {
    pub id: String,
    pub description: String,
    /// `pending`, `in_progress`, `completed` or `blocked`.
    pub status: String,
    pub assigned_to: Option<String>,
}

impl Task {
    /// A field-for-field copy.
    pub fn duplicate(&self) -> (r: Task)
        ensures
            r == *self,
    {
        Task {
            id: self.id.clone(),
            description: self.description.clone(),
            status: self.status.clone(),
            assigned_to: copy_opt_string(&self.assigned_to),
        }
    }
}

/// A plan with its todo list.
#[derive(Debug, Clone)]
pub struct Plan {
    pub id: String,
    pub run_id: Option<String>,
    pub title: String,
    pub status: String,
    pub tasks: Vec<Task>,
}

/// A plan as listed for selection: its id and title.
#[derive(Debug, Clone, PartialEq, Eq)]
pub struct PlanSummary {
    pub id: String,
    pub title: String,
}

/// One turn of collaborative planning.
#[derive(Debug, Clone, PartialEq, Eq)]
pub struct PlanTurn {
    pub sequence: i64,
    pub agent: String,
    pub prompt: String,
    pub content: String,
    pub timestamp: String,
}

/// The answer of the Dev agent.
#[derive(Debug, Clone)]
pub struct DevResponse {
    pub step_id: String,
    pub summary: String,
    pub files_touched: Vec<String>,
    pub diff: String,
    pub tests_suggested: Vec<String>,
    pub risks: Vec<String>,
}

/// What `DevResponse::validate` returns, seen through its message.
pub open spec fn spec_dev_response_check(step_id: Seq<char>, diff: Seq<char>) -> Result<(), Seq<char>> {
    if spec_trim(step_id).len() == 0 {
        spec_error("step_id cannot be empty"@)
    } else if spec_trim(diff).len() == 0 {
        spec_error("diff cannot be empty"@)
    } else {
        Ok(())
    }
}

impl DevResponse {
    /// Rejects a blank `step_id` or a blank `diff`.
    pub fn validate(&self) -> (r: Result<(), ValidationError>)
        ensures
            spec_outcome(r) == spec_dev_response_check(self.step_id@, self.diff@),
    {
        if is_blank(self.step_id.as_str()) {
            return Err(ValidationError::Message(String::from_str("step_id cannot be empty")));
        }
        if is_blank(self.diff.as_str()) {
            return Err(ValidationError::Message(String::from_str("diff cannot be empty")));
        }
        Ok(())
    }
}

/// The answer of the Auditor agent.
#[derive(Debug, Clone)]
pub struct AuditResponse {
    pub approved: bool,
    pub score: u8,
    pub problems: Vec<String>,
    pub required_changes: Vec<String>,
    pub blocked_reason: Option<String>,
}

/// What `AuditResponse::validate` returns, seen through its message.
pub open spec fn spec_audit_response_check(score: u8) -> Result<(), Seq<char>> {
    if score > 100 {
        spec_error("score must be between 0 and 100"@)
    } else {
        Ok(())
    }
}

impl AuditResponse {
    /// Rejects a score above 100.
    pub fn validate(&self) -> (r: Result<(), ValidationError>)
        ensures
            spec_outcome(r) == spec_audit_response_check(self.score),
    {
        if self.score > 100 {
            return Err(
                ValidationError::Message(String::from_str("score must be between 0 and 100")),
            );
        }
        Ok(())
    }
}

/// Where a hand-off between agents stands.
#[derive(Debug, Clone, Copy, PartialEq, Eq)]
pub enum HandoffStatus {
    WaitingAudit,
    Approved,
    Rejected,
    ReadyForDev,
    WaitingHuman,
}

/// A message left by one agent for the next.
#[derive(Debug, Clone)]
pub struct Handoff {
    pub agent: String,
    pub target_agent: String,
    pub step_id: String,
    pub status: HandoffStatus,
    pub summary: String,
    pub decisions: Vec<String>,
    pub files_touched: Vec<String>,
    pub open_questions: Vec<String>,
    pub risks: Vec<String>,
    pub next_action: String,
}

/// What `Handoff::validate` returns, seen through its message.
pub open spec fn spec_handoff_check(agent: Seq<char>, target: Seq<char>, step_id: Seq<char>) -> Result<(), Seq<char>> {
    if spec_trim(agent).len() == 0 {
        spec_error("agent cannot be empty"@)
    } else if spec_trim(target).len() == 0 {
        spec_error("target_agent cannot be empty"@)
    } else if spec_trim(step_id).len() == 0 {
        spec_error("step_id cannot be empty"@)
    } else {
        Ok(())
    }
}

impl Handoff {
    /// Rejects a blank `agent`, `target_agent` or `step_id`, in that order.
    pub fn validate(&self) -> (r: Result<(), ValidationError>)
        ensures
            spec_outcome(r) == spec_handoff_check(self.agent@, self.target_agent@, self.step_id@),
    {
        if is_blank(self.agent.as_str()) {
            return Err(ValidationError::Message(String::from_str("agent cannot be empty")));
        }
        if is_blank(self.target_agent.as_str()) {
            return Err(ValidationError::Message(String::from_str("target_agent cannot be empty")));
        }
        if is_blank(self.step_id.as_str()) {
            return Err(ValidationError::Message(String::from_str("step_id cannot be empty")));
        }
        Ok(())
    }
}

/// Where the current dev cycle stands.
#[derive(Debug, Clone, Copy, PartialEq, Eq, Structural)]
pub enum CycleStatus {
    Initialized,
    DevDone,
    AuditRequested,
    Approved,
    Rejected,
    Applied,
}

/// The persisted state of the current dev cycle. Timestamps are RFC 3339 text.
#[derive(Debug, Clone)]
pub struct CycleState {
    pub run_id: String,
    pub step_id: String,
    pub status: CycleStatus,
    pub base_commit: String,
    pub plan_hash: String,
    pub memory_hash: String,
    pub patch_file: Option<String>,
    pub patch_hash: Option<String>,
    pub audit_file: Option<String>,
    pub audit_approved: Option<bool>,
    pub created_at: String,
    pub updated_at: String,
}

/// What `CycleState::validate` returns, seen through its message.
pub open spec fn spec_cycle_state_check(c: CycleState) -> Result<(), Seq<char>> {
    if spec_trim(c.run_id@).len() == 0 {
        spec_error("run_id cannot be empty"@)
    } else if spec_trim(c.step_id@).len() == 0 {
        spec_error("step_id cannot be empty"@)
    } else if spec_trim(c.base_commit@).len() == 0 {
        spec_error("base_commit cannot be empty"@)
    } else if spec_trim(c.plan_hash@).len() == 0 {
        spec_error("plan_hash cannot be empty"@)
    } else if spec_trim(c.memory_hash@).len() == 0 {
        spec_error("memory_hash cannot be empty"@)
    } else {
        Ok(())
    }
}

impl CycleState {
    /// Rejects a blank run id, step id, base commit, plan hash or memory
    /// hash, in that order.
    pub fn validate(&self) -> (r: Result<(), ValidationError>)
        ensures
            spec_outcome(r) == spec_cycle_state_check(*self),
    {
        if is_blank(self.run_id.as_str()) {
            return Err(ValidationError::Message(String::from_str("run_id cannot be empty")));
        }
        if is_blank(self.step_id.as_str()) {
            return Err(ValidationError::Message(String::from_str("step_id cannot be empty")));
        }
        if is_blank(self.base_commit.as_str()) {
            return Err(ValidationError::Message(String::from_str("base_commit cannot be empty")));
        }
        if is_blank(self.plan_hash.as_str()) {
            return Err(ValidationError::Message(String::from_str("plan_hash cannot be empty")));
        }
        if is_blank(self.memory_hash.as_str()) {
            return Err(ValidationError::Message(String::from_str("memory_hash cannot be empty")));
        }
        Ok(())
    }
}

/// What to do after a dev cycle.
#[derive(Debug, Clone, PartialEq, Eq)]
pub enum CycleDecision {
    /// Mark the task done and move on.
    Proceed,
    /// Run the same task again, with optional notes.
    RepeatCurrentTask { user_notes: Option<String> },
    /// Run the same task again with the human's notes.
    EnrichAndRepeat { user_notes: String },
    /// Stop the plan.
    Abort,
}

/// The outcome of one dev cycle.
#[derive(Debug, Clone)]
pub struct CycleResult {
    pub decision: CycleDecision,
    pub approved: bool,
    pub applied: bool,
    pub summary: String,
}

} // verus!

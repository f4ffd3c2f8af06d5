//! One Dev → Audit → Human cycle of the command-line dev mode, as a state
//! machine: the program runs the agents, the checks and the gates, reports
//! each outcome as an event, and does the action the cycle answers with.

use vstd::prelude::*;

use crate::commands::run::cycle_result;
use crate::schemas::{CycleDecision, CycleResult};

verus! {

broadcast use vstd::string::group_string_axioms;

/// Why a cycle failed.
#[derive(Debug, Clone, PartialEq, Eq)]
pub enum CycleFailure {
    /// The Dev's patch broke a security rule.
    Security,
    /// The diff could not be parsed; the parser's message.
    InvalidDiff(String),
    /// `git apply --check` refused the patch; its message.
    ApplyCheck(String),
    /// The human aborted at the diff gate.
    Aborted,
}

/// The message a failure is reported with.
pub open spec fn spec_failure_text(f: CycleFailure) -> Seq<char> {
    match f {
        CycleFailure::Security => "security violations detected"@,
        CycleFailure::InvalidDiff(m) => m@,
        CycleFailure::ApplyCheck(m) => m@,
        CycleFailure::Aborted => "Handoff cancelado"@,
    }
}

impl CycleFailure {
    /// The message the failure is reported with.
    pub fn message(&self) -> (r: String)
        ensures
            r@ == spec_failure_text(*self),
    {
        match self {
            CycleFailure::Security => String::from_str("security violations detected"),
            CycleFailure::InvalidDiff(m) => m.clone(),
            CycleFailure::ApplyCheck(m) => m.clone(),
            CycleFailure::Aborted => String::from_str("Handoff cancelado"),
        }
    }
}

/// Where a cycle stands.
#[derive(Debug, Clone, Copy, PartialEq, Eq)]
pub enum CycleStage {
    /// Waiting for the Dev's validated reply.
    AwaitingDev,
    /// The Dev's diff is being parsed.
    Parsing,
    /// The patch was written; `git apply --check` runs.
    ApplyChecking,
    /// The human reviews the diff.
    DiffReview,
    /// The Auditor reviews the patch.
    Auditing,
    /// The approved patch is being applied.
    Applying,
    /// The rejection hand-off is being saved.
    SavingRejection,
    /// The cycle ended, with a result or a failure.
    Over,
}

/// An outcome the program reports to the cycle.
#[derive(Debug, Clone, PartialEq, Eq)]
pub enum CycleEvent {
    /// The Dev's reply was read and validated: how many security findings
    /// its diff has, and its summary.
    DevValidated { violations: usize, summary: String },
    /// The diff was parsed, or why it could not be.
    DiffParsed { error: Option<String> },
    /// `git apply --check` passed, or why it failed.
    ApplyChecked { error: Option<String> },
    /// The human let the diff go on, or aborted.
    DiffReviewed { aborted: bool },
    /// The Auditor's verdict.
    Audited { approved: bool },
    /// The approved patch was applied.
    Applied,
    /// The rejection hand-off was saved.
    RejectionSaved,
}

/// What the program does next.
#[derive(Debug, Clone)]
pub enum CycleAction {
    /// Parse the Dev's diff.
    ParseDiff,
    /// Write the patch file and run `git apply --check`.
    WritePatch,
    /// Show the diff to the human.
    ReviewDiff,
    /// Send the patch to the Auditor.
    RunAudit,
    /// Apply the approved patch.
    Apply,
    /// Save the Auditor's rejection as a hand-off to the Dev.
    SaveHandoff,
    /// End the cycle with this failure.
    Fail(CycleFailure),
    /// End the cycle with this result.
    Done(CycleResult),
    /// The event does not fit the stage; nothing changes.
    Ignore,
}

/// The cycle: its stage and the Dev's summary.
#[derive(Debug, Clone, PartialEq, Eq)]
pub struct CycleLoop {
    pub stage: CycleStage,
    pub summary: String,
}

/// What `cycle_result` returns.
pub open spec fn spec_cycle_result(approved: bool, summary: String) -> CycleResult {
    CycleResult {
        decision: if approved {
            CycleDecision::Proceed
        } else {
            CycleDecision::Abort
        },
        approved: approved,
        applied: approved,
        summary: summary,
    }
}

/// The cycle in stage `stage`, with the same summary.
pub open spec fn spec_at(s: CycleLoop, stage: CycleStage) -> CycleLoop {
    CycleLoop { stage: stage, ..s }
}

/// What one event does to the cycle, and the action it asks for.
pub open spec fn spec_cycle_step(s: CycleLoop, e: CycleEvent) -> (CycleLoop, CycleAction) {
    match (s.stage, e) {
        (CycleStage::AwaitingDev, CycleEvent::DevValidated { violations, summary }) => if violations > 0 {
            (CycleLoop { stage: CycleStage::Over, summary: summary }, CycleAction::Fail(CycleFailure::Security))
        } else {
            (CycleLoop { stage: CycleStage::Parsing, summary: summary }, CycleAction::ParseDiff)
        },
        (CycleStage::Parsing, CycleEvent::DiffParsed { error }) => match error {
            Some(m) => (spec_at(s, CycleStage::Over), CycleAction::Fail(CycleFailure::InvalidDiff(m))),
            None => (spec_at(s, CycleStage::ApplyChecking), CycleAction::WritePatch),
        },
        (CycleStage::ApplyChecking, CycleEvent::ApplyChecked { error }) => match error {
            Some(m) => (spec_at(s, CycleStage::Over), CycleAction::Fail(CycleFailure::ApplyCheck(m))),
            None => (spec_at(s, CycleStage::DiffReview), CycleAction::ReviewDiff),
        },
        (CycleStage::DiffReview, CycleEvent::DiffReviewed { aborted }) => if aborted {
            (spec_at(s, CycleStage::Over), CycleAction::Fail(CycleFailure::Aborted))
        } else {
            (spec_at(s, CycleStage::Auditing), CycleAction::RunAudit)
        },
        (CycleStage::Auditing, CycleEvent::Audited { approved }) => if approved {
            (spec_at(s, CycleStage::Applying), CycleAction::Apply)
        } else {
            (spec_at(s, CycleStage::SavingRejection), CycleAction::SaveHandoff)
        },
        (CycleStage::Applying, CycleEvent::Applied) => (
            spec_at(s, CycleStage::Over),
            CycleAction::Done(spec_cycle_result(true, s.summary)),
        ),
        (CycleStage::SavingRejection, CycleEvent::RejectionSaved) => (
            spec_at(s, CycleStage::Over),
            CycleAction::Done(spec_cycle_result(false, s.summary)),
        ),
        _ => (s, CycleAction::Ignore),
    }
}

impl CycleLoop {
    /// A cycle waiting for the Dev.
    pub fn new() -> (r: CycleLoop)
        ensures
            r.stage == CycleStage::AwaitingDev,
            r.summary@.len() == 0,
    {
        CycleLoop { stage: CycleStage::AwaitingDev, summary: String::new() }
    }

    /// Takes one outcome and answers with the next action.
    pub fn step(&mut self, e: CycleEvent) -> (r: CycleAction)
        ensures
            (*final(self), r) == spec_cycle_step(*old(self), e),
    {
        match (self.stage, e) {
            (CycleStage::AwaitingDev, CycleEvent::DevValidated { violations, summary }) => {
                self.summary = summary;
                if violations > 0 {
                    self.stage = CycleStage::Over;
                    CycleAction::Fail(CycleFailure::Security)
                } else {
                    self.stage = CycleStage::Parsing;
                    CycleAction::ParseDiff
                }
            },
            (CycleStage::Parsing, CycleEvent::DiffParsed { error }) => match error {
                Some(m) => {
                    self.stage = CycleStage::Over;
                    CycleAction::Fail(CycleFailure::InvalidDiff(m))
                },
                None => {
                    self.stage = CycleStage::ApplyChecking;
                    CycleAction::WritePatch
                },
            },
            (CycleStage::ApplyChecking, CycleEvent::ApplyChecked { error }) => match error {
                Some(m) => {
                    self.stage = CycleStage::Over;
                    CycleAction::Fail(CycleFailure::ApplyCheck(m))
                },
                None => {
                    self.stage = CycleStage::DiffReview;
                    CycleAction::ReviewDiff
                },
            },
            (CycleStage::DiffReview, CycleEvent::DiffReviewed { aborted }) => {
                if aborted {
                    self.stage = CycleStage::Over;
                    CycleAction::Fail(CycleFailure::Aborted)
                } else {
                    self.stage = CycleStage::Auditing;
                    CycleAction::RunAudit
                }
            },
            (CycleStage::Auditing, CycleEvent::Audited { approved }) => {
                if approved {
                    self.stage = CycleStage::Applying;
                    CycleAction::Apply
                } else {
                    self.stage = CycleStage::SavingRejection;
                    CycleAction::SaveHandoff
                }
            },
            (CycleStage::Applying, CycleEvent::Applied) => {
                self.stage = CycleStage::Over;
                CycleAction::Done(cycle_result(true, self.summary.clone()))
            },
            (CycleStage::SavingRejection, CycleEvent::RejectionSaved) => {
                self.stage = CycleStage::Over;
                CycleAction::Done(cycle_result(false, self.summary.clone()))
            },
            _ => CycleAction::Ignore,
        }
    }
}

/// A cycle whose Dev reply has a security finding fails at once, and once
/// over it ignores every later event: no patch is written or applied after
/// a violation.
pub proof fn law_violation_ends_the_cycle(s: CycleLoop, violations: usize, summary: String, later: CycleEvent)
    requires
        s.stage == CycleStage::AwaitingDev,
        violations > 0,
    ensures
        ({
            let (t, a) = spec_cycle_step(s, CycleEvent::DevValidated { violations, summary });
            &&& a == CycleAction::Fail(CycleFailure::Security)
            &&& t.stage == CycleStage::Over
            &&& spec_cycle_step(t, later) == (t, CycleAction::Ignore)
        }),
{
}

/// The cycle stays over whatever happens.
pub proof fn law_over_is_final(s: CycleLoop, e: CycleEvent)
    requires
        s.stage == CycleStage::Over,
    ensures
        spec_cycle_step(s, e) == (s, CycleAction::Ignore),
{
}

/// The patch is applied only right after the Auditor approved it.
pub proof fn law_apply_needs_approval(s: CycleLoop, e: CycleEvent)
    ensures
        spec_cycle_step(s, e).1 == CycleAction::Apply <==> (s.stage == CycleStage::Auditing && e
            == CycleEvent::Audited { approved: true }),
{
}

/// A cycle ends with a result only after the patch was applied (an
/// approved result) or the rejection saved (a rejected one), and the
/// result carries the Dev's summary: it is `cycle_result(approved, summary)`.
pub proof fn law_result_follows_the_audit(s: CycleLoop, e: CycleEvent)
    ensures
        spec_cycle_step(s, e).1 matches CycleAction::Done(r) ==> (s.stage == CycleStage::Applying && r
            == spec_cycle_result(true, s.summary)) || (s.stage == CycleStage::SavingRejection && r
            == spec_cycle_result(false, s.summary)),
{
}

} // verus!

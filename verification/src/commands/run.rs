//! The dev mode's decisions: which task runs next, what each reply and each
//! human decision does to it, and when the patch may be applied. The agent
//! calls, the git checks and the gates' screens belong to the program around
//! this library, which feeds their outcomes in as events.

use vstd::prelude::*;

use crate::kernel::stream::GateDecision;
use crate::kernel::text::{is_blank, join_strings, push_str, spec_join, spec_trim};
use crate::schemas::{CycleDecision, CycleResult};

verus! {

broadcast use vstd::string::group_string_axioms;

// ── The dev loop of the terminal UI ────────────────────────────────────────

/// Where the dev loop stands.
#[derive(Debug, Clone, Copy, PartialEq, Eq)]
pub enum DevStage {
    /// The next pending task is being picked.
    Picking,
    /// The Dev agent works on the task.
    AwaitingDev,
    /// The human reviews the Dev's diff.
    AwaitingDiffGate,
    /// The Auditor reviews the patch.
    AwaitingAudit,
    /// The human decides whether the approved patch is applied.
    AwaitingApplyGate,
    /// The human decides what happens to the task.
    AwaitingInterTaskGate,
    /// No more work: every task is done or the human stopped.
    Finished,
}

/// What became of the Dev's reply.
#[derive(Debug, Clone, Copy, PartialEq, Eq)]
pub enum DevReply {
    /// The reply is not the JSON asked for.
    InvalidJson,
    /// The diff touches secrets or holds dangerous code.
    SecurityViolations,
    /// The diff is not a unified diff.
    InvalidDiff,
    /// `git apply --check` refused the patch.
    ApplyCheckFailed,
    /// The patch is ready for review.
    Ready,
}

/// What became of the Auditor's reply.
#[derive(Debug, Clone, Copy, PartialEq, Eq)]
pub enum AuditReply {
    /// The reply is not the JSON asked for.
    InvalidJson,
    /// The reply failed validation.
    Invalid,
    /// The Auditor rejected the patch.
    Rejected,
    /// The Auditor approved the patch.
    Approved,
}

/// An outcome the program reports to the dev loop.
#[derive(Debug, Clone, PartialEq, Eq)]
pub enum DevEvent {
    /// The id of the task picked, or `None` when none is pending.
    Picked(Option<String>),
    DevReplied(DevReply),
    DiffGate(GateDecision),
    Audited(AuditReply),
    ApplyGate(GateDecision),
    InterTaskGate(GateDecision),
}

/// The status a task is given when it leaves the loop's hands.
#[derive(Debug, Clone, Copy, PartialEq, Eq)]
pub enum TaskOutcome {
    Pending,
    Completed,
    Blocked,
}

/// The stored status of a task outcome.
pub open spec fn spec_outcome_status(o: TaskOutcome) -> Seq<char> {
    match o {
        TaskOutcome::Pending => "pending"@,
        TaskOutcome::Completed => "completed"@,
        TaskOutcome::Blocked => "blocked"@,
    }
}

impl TaskOutcome {
    /// The status stored for this outcome.
    pub fn as_str(&self) -> (r: &'static str)
        ensures
            r@ == spec_outcome_status(*self),
    {
        match self {
            TaskOutcome::Pending => "pending",
            TaskOutcome::Completed => "completed",
            TaskOutcome::Blocked => "blocked",
        }
    }
}

/// What the program does next.
#[derive(Debug, Clone, PartialEq, Eq)]
pub enum DevAction {
    /// Send the task's prompt to the Dev, with the human's notes if any.
    PromptDev { task_id: String, notes: Option<String> },
    /// Show the diff to the human.
    ReviewDiff,
    /// Send the patch to the Auditor.
    RequestAudit,
    /// Ask the human whether to apply the approved patch.
    ReviewApply,
    /// Apply the patch, then ask the human about the task.
    ApplyThenReview,
    /// Ask the human about the task; the patch was not applied.
    ReviewInterTask,
    /// Store the task's new status, then pick the next task.
    Requeue { task_id: String, outcome: TaskOutcome },
    /// Stop.
    Finish,
    /// The event does not fit the stage; nothing changes.
    Ignore,
}

/// The dev loop: its stage, the task in hand and the notes for the next
/// prompt.
#[derive(Debug, Clone, PartialEq, Eq)]
pub struct DevLoop {
    pub stage: DevStage,
    pub task: Option<String>,
    pub notes: Option<String>,
}

/// A task is in hand exactly while the loop works on one.
pub open spec fn spec_dev_loop_wf(s: DevLoop) -> bool {
    (s.task is Some) <==> (s.stage != DevStage::Picking && s.stage != DevStage::Finished)
}

/// The human let the work go on.
pub open spec fn spec_goes_on(d: GateDecision) -> bool {
    d is Continue || d is Review
}

/// The loop after the task was handed back for `outcome`.
pub open spec fn spec_requeue(s: DevLoop, outcome: TaskOutcome, notes: Option<String>) -> (DevLoop, DevAction) {
    (
        DevLoop { stage: DevStage::Picking, task: None, notes: notes },
        DevAction::Requeue { task_id: s.task->0, outcome: outcome },
    )
}

/// One step of the dev loop.
pub open spec fn spec_dev_step(s: DevLoop, e: DevEvent) -> (DevLoop, DevAction) {
    let at = |stage: DevStage| DevLoop { stage: stage, ..s };
    match s.stage {
        DevStage::Finished => (s, DevAction::Finish),
        DevStage::Picking => match e {
            DevEvent::Picked(None) => (DevLoop { stage: DevStage::Finished, ..s }, DevAction::Finish),
            DevEvent::Picked(Some(id)) => (
                DevLoop { stage: DevStage::AwaitingDev, task: Some(id), notes: None },
                DevAction::PromptDev { task_id: id, notes: s.notes },
            ),
            _ => (s, DevAction::Ignore),
        },
        DevStage::AwaitingDev => match e {
            DevEvent::DevReplied(DevReply::Ready) => (at(DevStage::AwaitingDiffGate), DevAction::ReviewDiff),
            DevEvent::DevReplied(DevReply::SecurityViolations) => spec_requeue(s, TaskOutcome::Blocked, s.notes),
            DevEvent::DevReplied(_) => spec_requeue(s, TaskOutcome::Pending, s.notes),
            _ => (s, DevAction::Ignore),
        },
        DevStage::AwaitingDiffGate => match e {
            DevEvent::DiffGate(GateDecision::Enrich(n)) => spec_requeue(s, TaskOutcome::Pending, Some(n)),
            DevEvent::DiffGate(d) => if spec_goes_on(d) {
                (at(DevStage::AwaitingAudit), DevAction::RequestAudit)
            } else {
                spec_requeue(s, TaskOutcome::Pending, s.notes)
            },
            _ => (s, DevAction::Ignore),
        },
        DevStage::AwaitingAudit => match e {
            DevEvent::Audited(AuditReply::Approved) => (at(DevStage::AwaitingApplyGate), DevAction::ReviewApply),
            DevEvent::Audited(_) => spec_requeue(s, TaskOutcome::Pending, s.notes),
            _ => (s, DevAction::Ignore),
        },
        DevStage::AwaitingApplyGate => match e {
            DevEvent::ApplyGate(d) => if spec_goes_on(d) {
                (at(DevStage::AwaitingInterTaskGate), DevAction::ApplyThenReview)
            } else {
                (at(DevStage::AwaitingInterTaskGate), DevAction::ReviewInterTask)
            },
            _ => (s, DevAction::Ignore),
        },
        DevStage::AwaitingInterTaskGate => match e {
            DevEvent::InterTaskGate(GateDecision::Enrich(n)) => spec_requeue(s, TaskOutcome::Pending, Some(n)),
            DevEvent::InterTaskGate(d) => if spec_goes_on(d) {
                spec_requeue(s, TaskOutcome::Completed, s.notes)
            } else {
                (DevLoop { stage: DevStage::Finished, task: None, notes: s.notes }, DevAction::Finish)
            },
            _ => (s, DevAction::Ignore),
        },
    }
}

impl DevLoop {
    /// A loop about to pick its first task.
    pub fn new() -> (r: DevLoop)
        ensures
            r == (DevLoop { stage: DevStage::Picking, task: None, notes: None }),
            spec_dev_loop_wf(r),
    {
        DevLoop { stage: DevStage::Picking, task: None, notes: None }
    }

    /// Hands the current task back with `outcome`.
    fn requeue(&mut self, outcome: TaskOutcome, notes: Option<String>) -> (r: DevAction)
        requires
            old(self).task is Some,
        ensures
            (*final(self), r) == spec_requeue(*old(self), outcome, notes),
    {
        let id = match self.task.take() {
            Some(id) => id,
            None => String::new(),
        };
        self.stage = DevStage::Picking;
        self.notes = notes;
        DevAction::Requeue { task_id: id, outcome }
    }

    /// Feeds one outcome to the loop and returns what to do next.
    pub fn step(&mut self, event: DevEvent) -> (r: DevAction)
        requires
            spec_dev_loop_wf(*old(self)),
        ensures
            (*final(self), r) == spec_dev_step(*old(self), event),
            spec_dev_loop_wf(*final(self)),
    {
        match self.stage {
            DevStage::Finished => DevAction::Finish,
            DevStage::Picking => match event {
                DevEvent::Picked(None) => {
                    self.stage = DevStage::Finished;
                    DevAction::Finish
                },
                DevEvent::Picked(Some(id)) => {
                    let notes = self.notes.take();
                    self.stage = DevStage::AwaitingDev;
                    self.task = Some(id.clone());
                    DevAction::PromptDev { task_id: id, notes }
                },
                _ => DevAction::Ignore,
            },
            DevStage::AwaitingDev => match event {
                DevEvent::DevReplied(DevReply::Ready) => {
                    self.stage = DevStage::AwaitingDiffGate;
                    DevAction::ReviewDiff
                },
                DevEvent::DevReplied(DevReply::SecurityViolations) => {
                    let notes = self.notes.take();
                    self.requeue(TaskOutcome::Blocked, notes)
                },
                DevEvent::DevReplied(_) => {
                    let notes = self.notes.take();
                    self.requeue(TaskOutcome::Pending, notes)
                },
                _ => DevAction::Ignore,
            },
            DevStage::AwaitingDiffGate => match event {
                DevEvent::DiffGate(GateDecision::Enrich(n)) => self.requeue(TaskOutcome::Pending, Some(n)),
                DevEvent::DiffGate(GateDecision::Continue) | DevEvent::DiffGate(GateDecision::Review) => {
                    self.stage = DevStage::AwaitingAudit;
                    DevAction::RequestAudit
                },
                DevEvent::DiffGate(_) => {
                    let notes = self.notes.take();
                    self.requeue(TaskOutcome::Pending, notes)
                },
                _ => DevAction::Ignore,
            },
            DevStage::AwaitingAudit => match event {
                DevEvent::Audited(AuditReply::Approved) => {
                    self.stage = DevStage::AwaitingApplyGate;
                    DevAction::ReviewApply
                },
                DevEvent::Audited(_) => {
                    let notes = self.notes.take();
                    self.requeue(TaskOutcome::Pending, notes)
                },
                _ => DevAction::Ignore,
            },
            DevStage::AwaitingApplyGate => match event {
                DevEvent::ApplyGate(GateDecision::Continue) | DevEvent::ApplyGate(GateDecision::Review) => {
                    self.stage = DevStage::AwaitingInterTaskGate;
                    DevAction::ApplyThenReview
                },
                DevEvent::ApplyGate(_) => {
                    self.stage = DevStage::AwaitingInterTaskGate;
                    DevAction::ReviewInterTask
                },
                _ => DevAction::Ignore,
            },
            DevStage::AwaitingInterTaskGate => match event {
                DevEvent::InterTaskGate(GateDecision::Enrich(n)) => self.requeue(TaskOutcome::Pending, Some(n)),
                DevEvent::InterTaskGate(GateDecision::Continue) | DevEvent::InterTaskGate(GateDecision::Review) => {
                    let notes = self.notes.take();
                    self.requeue(TaskOutcome::Completed, notes)
                },
                DevEvent::InterTaskGate(_) => {
                    self.stage = DevStage::Finished;
                    self.task = None;
                    DevAction::Finish
                },
                _ => DevAction::Ignore,
            },
        }
    }
}

/// Every step keeps the loop well formed: a task is in hand exactly while
/// the loop works on one.
pub proof fn law_dev_step_keeps_wf(s: DevLoop, e: DevEvent)
    requires
        spec_dev_loop_wf(s),
    ensures
        spec_dev_loop_wf(spec_dev_step(s, e).0),
{
}

/// A task is marked completed only when the human lets it go on at the
/// inter-task gate, and then always.
pub proof fn law_completion_needs_inter_task_approval(s: DevLoop, e: DevEvent)
    requires
        spec_dev_loop_wf(s),
    ensures
        (spec_dev_step(s, e).1 matches DevAction::Requeue { outcome: TaskOutcome::Completed, .. }) <==> (
        s.stage == DevStage::AwaitingInterTaskGate && (e matches DevEvent::InterTaskGate(d) && spec_goes_on(d))),
{
}

/// A task is blocked exactly when the Dev's patch broke a security rule;
/// every other failure hands the task back as pending.
pub proof fn law_only_security_blocks(s: DevLoop, e: DevEvent)
    requires
        spec_dev_loop_wf(s),
    ensures
        (spec_dev_step(s, e).1 matches DevAction::Requeue { outcome: TaskOutcome::Blocked, .. }) <==> (s.stage
            == DevStage::AwaitingDev && e == DevEvent::DevReplied(DevReply::SecurityViolations)),
{
}

/// A patch is applied only after the Auditor approved it and the human let
/// it go on at the apply gate; the apply gate itself is reached only from an
/// approving audit.
pub proof fn law_apply_needs_audit_and_human(s: DevLoop, e: DevEvent)
    requires
        spec_dev_loop_wf(s),
    ensures
        spec_dev_step(s, e).1 == DevAction::ApplyThenReview ==> s.stage == DevStage::AwaitingApplyGate
            && (e matches DevEvent::ApplyGate(d) && spec_goes_on(d)),
        spec_dev_step(s, e).0.stage == DevStage::AwaitingApplyGate && s.stage != DevStage::AwaitingApplyGate
            ==> s.stage == DevStage::AwaitingAudit && e == DevEvent::Audited(AuditReply::Approved),
{
}

/// The human's notes from an enriching gate reach the next Dev prompt, and
/// only that one.
pub proof fn law_enrich_notes_reach_next_prompt(s: DevLoop, d: GateDecision, n: String, id: String)
    requires
        spec_dev_loop_wf(s),
        d == GateDecision::Enrich(n),
        s.stage == DevStage::AwaitingDiffGate || s.stage == DevStage::AwaitingInterTaskGate,
    ensures
        ({
            let e = if s.stage == DevStage::AwaitingDiffGate {
                DevEvent::DiffGate(d)
            } else {
                DevEvent::InterTaskGate(d)
            };
            let s1 = spec_dev_step(s, e).0;
            let (s2, a) = spec_dev_step(s1, DevEvent::Picked(Some(id)));
            &&& spec_dev_step(s, e).1 == (DevAction::Requeue { task_id: s.task->0, outcome: TaskOutcome::Pending })
            &&& a == (DevAction::PromptDev { task_id: id, notes: Some(n) })
            &&& s2.notes is None
        }),
{
}

/// The diff gate decides whether the Auditor sees the patch: an audit is
/// requested exactly when the human lets the diff go on (continue or
/// review). Aborting or finishing there rejects the diff: the task in hand
/// goes back as pending and the loop picks again, keeping the notes it had.
pub proof fn law_diff_gate_decides_the_audit(s: DevLoop, e: DevEvent)
    requires
        spec_dev_loop_wf(s),
    ensures
        spec_dev_step(s, e).1 == DevAction::RequestAudit <==> (s.stage == DevStage::AwaitingDiffGate && (e
            == DevEvent::DiffGate(GateDecision::Continue) || e == DevEvent::DiffGate(GateDecision::Review))),
        s.stage == DevStage::AwaitingDiffGate && (e == DevEvent::DiffGate(GateDecision::Abort) || e
            == DevEvent::DiffGate(GateDecision::Finalize)) ==> spec_dev_step(s, e) == (
            DevLoop { stage: DevStage::Picking, task: None, notes: s.notes },
            DevAction::Requeue { task_id: s.task->0, outcome: TaskOutcome::Pending },
        ),
        spec_dev_step(s, e).0.stage == DevStage::AwaitingAudit && s.stage != DevStage::AwaitingAudit
            ==> s.stage == DevStage::AwaitingDiffGate && (e == DevEvent::DiffGate(GateDecision::Continue) || e
            == DevEvent::DiffGate(GateDecision::Review)),
{
}

/// Once finished, the loop stays finished whatever happens.
pub proof fn law_finished_is_final(s: DevLoop, e: DevEvent)
    requires
        s.stage == DevStage::Finished,
    ensures
        spec_dev_step(s, e) == (s, DevAction::Finish),
{
}

/// An event that does not fit the stage changes nothing.
pub proof fn law_out_of_turn_events_are_ignored(s: DevLoop, e: DevEvent)
    requires
        spec_dev_loop_wf(s),
        spec_dev_step(s, e).1 == DevAction::Ignore,
    ensures
        spec_dev_step(s, e).0 == s,
{
}

/// A handed-back task is always the one the loop was working on.
pub proof fn law_requeue_names_task_in_hand(s: DevLoop, e: DevEvent)
    requires
        spec_dev_loop_wf(s),
    ensures
        spec_dev_step(s, e).1 matches DevAction::Requeue { task_id, .. } ==> s.task == Some(task_id),
{
}

// ── The dev loop of the command line ───────────────────────────────────────

/// An outcome the command-line loop is told about.
#[derive(Debug, Clone, PartialEq, Eq)]
pub enum CliEvent {
    /// The top of the loop is reached.
    Head,
    /// The id of the task picked, or `None` when none is pending.
    Picked(Option<String>),
    /// The decision taken after a cycle.
    Decided(CycleDecision),
}

/// What the command-line loop does next.
#[derive(Debug, Clone, PartialEq, Eq)]
pub enum CliAction {
    /// Pick the next pending task of the plan.
    Pick,
    /// Run one dev cycle on the task (none in single-step mode) with the
    /// notes carried over.
    RunCycle { task: Option<String>, notes: Option<String> },
    /// Mark the task completed (when there is one), then go back to the top
    /// of the loop unless `stop`.
    Complete { task: Option<String>, stop: bool },
    /// Go back to the top of the loop.
    Continue,
    /// Stop; `plan_done` when the plan has no pending task left.
    Stop { plan_done: bool },
}

/// The command-line dev loop. In plan mode it works through the plan's
/// tasks; otherwise it runs the single step once.
#[derive(Debug, Clone, PartialEq, Eq)]
pub struct CliLoop {
    pub plan_mode: bool,
    pub task: Option<String>,
    pub notes: Option<String>,
    pub single_step_done: bool,
    pub stopped: bool,
}

/// One step of the command-line loop.
pub open spec fn spec_cli_step(s: CliLoop, e: CliEvent) -> (CliLoop, CliAction) {
    if s.stopped {
        (s, CliAction::Stop { plan_done: false })
    } else {
        match e {
            CliEvent::Head => match s.task {
                Some(t) => (CliLoop { notes: None, ..s }, CliAction::RunCycle { task: Some(t), notes: s.notes }),
                None => if s.plan_mode {
                    (s, CliAction::Pick)
                } else if s.single_step_done {
                    (CliLoop { stopped: true, ..s }, CliAction::Stop { plan_done: false })
                } else {
                    (
                        CliLoop { single_step_done: true, notes: None, ..s },
                        CliAction::RunCycle { task: None, notes: s.notes },
                    )
                },
            },
            CliEvent::Picked(None) => (CliLoop { stopped: true, ..s }, CliAction::Stop { plan_done: s.plan_mode }),
            CliEvent::Picked(Some(id)) => (
                CliLoop { task: Some(id), notes: None, ..s },
                CliAction::RunCycle { task: Some(id), notes: s.notes },
            ),
            CliEvent::Decided(CycleDecision::Proceed) => (
                CliLoop { task: None, stopped: !s.plan_mode, ..s },
                CliAction::Complete { task: s.task, stop: !s.plan_mode },
            ),
            CliEvent::Decided(CycleDecision::RepeatCurrentTask { user_notes }) => (
                CliLoop { notes: user_notes, ..s },
                CliAction::Continue,
            ),
            CliEvent::Decided(CycleDecision::EnrichAndRepeat { user_notes }) => (
                CliLoop { notes: Some(user_notes), ..s },
                CliAction::Continue,
            ),
            CliEvent::Decided(CycleDecision::Abort) => (
                CliLoop { stopped: true, ..s },
                CliAction::Stop { plan_done: false },
            ),
        }
    }
}

impl CliLoop {
    /// A fresh loop, in plan mode or single-step mode.
    pub fn new(plan_mode: bool) -> (r: CliLoop)
        ensures
            r == (CliLoop { plan_mode: plan_mode, task: None, notes: None, single_step_done: false, stopped: false }),
    {
        CliLoop { plan_mode, task: None, notes: None, single_step_done: false, stopped: false }
    }

    /// Feeds one outcome to the loop and returns what to do next.
    pub fn step(&mut self, event: CliEvent) -> (r: CliAction)
        ensures
            (*final(self), r) == spec_cli_step(*old(self), event),
    {
        if self.stopped {
            return CliAction::Stop { plan_done: false };
        }
        match event {
            CliEvent::Head => match &self.task {
                Some(t) => {
                    let task = Some(t.clone());
                    let notes = self.notes.take();
                    CliAction::RunCycle { task, notes }
                },
                None => if self.plan_mode {
                    CliAction::Pick
                } else if self.single_step_done {
                    self.stopped = true;
                    CliAction::Stop { plan_done: false }
                } else {
                    self.single_step_done = true;
                    let notes = self.notes.take();
                    CliAction::RunCycle { task: None, notes }
                },
            },
            CliEvent::Picked(None) => {
                self.stopped = true;
                CliAction::Stop { plan_done: self.plan_mode }
            },
            CliEvent::Picked(Some(id)) => {
                self.task = Some(id.clone());
                let notes = self.notes.take();
                CliAction::RunCycle { task: Some(id), notes }
            },
            CliEvent::Decided(CycleDecision::Proceed) => {
                let task = self.task.take();
                let stop = !self.plan_mode;
                self.stopped = stop;
                CliAction::Complete { task, stop }
            },
            CliEvent::Decided(CycleDecision::RepeatCurrentTask { user_notes }) => {
                self.notes = user_notes;
                CliAction::Continue
            },
            CliEvent::Decided(CycleDecision::EnrichAndRepeat { user_notes }) => {
                self.notes = Some(user_notes);
                CliAction::Continue
            },
            CliEvent::Decided(CycleDecision::Abort) => {
                self.stopped = true;
                CliAction::Stop { plan_done: false }
            },
        }
    }
}

/// Repeating a task keeps it in hand: the next cycle runs the same task with
/// the notes given.
pub proof fn law_repeat_reruns_same_task(s: CliLoop, d: CycleDecision)
    requires
        !s.stopped,
        s.task is Some,
        d is RepeatCurrentTask || d is EnrichAndRepeat,
    ensures
        ({
            let s1 = spec_cli_step(s, CliEvent::Decided(d)).0;
            let a = spec_cli_step(s1, CliEvent::Head).1;
            let notes = match d {
                CycleDecision::RepeatCurrentTask { user_notes } => user_notes,
                CycleDecision::EnrichAndRepeat { user_notes } => Some(user_notes),
                _ => None,
            };
            &&& spec_cli_step(s, CliEvent::Decided(d)).1 == CliAction::Continue
            &&& a == (CliAction::RunCycle { task: s.task, notes: notes })
        }),
{
}

/// Proceeding in plan mode completes the task and picks the next one;
/// aborting stops without completing anything.
pub proof fn law_proceed_completes_and_moves_on(s: CliLoop)
    requires
        !s.stopped,
        s.plan_mode,
    ensures
        ({
            let (s1, a) = spec_cli_step(s, CliEvent::Decided(CycleDecision::Proceed));
            &&& a == (CliAction::Complete { task: s.task, stop: false })
            &&& spec_cli_step(s1, CliEvent::Head).1 == CliAction::Pick
        }),
        spec_cli_step(s, CliEvent::Decided(CycleDecision::Abort)) == (
            CliLoop { stopped: true, ..s },
            CliAction::Stop { plan_done: false },
        ),
{
}

/// Single-step mode runs exactly one cycle, whatever is decided after it.
pub proof fn law_single_step_runs_once(d: CycleDecision)
    ensures
        ({
            let s0 = CliLoop { plan_mode: false, task: None, notes: None, single_step_done: false, stopped: false };
            let (s1, a1) = spec_cli_step(s0, CliEvent::Head);
            let (s2, a2) = spec_cli_step(s1, CliEvent::Decided(d));
            let a3 = spec_cli_step(s2, CliEvent::Head).1;
            &&& a1 == (CliAction::RunCycle { task: None, notes: None })
            &&& !(a2 is RunCycle)
            &&& a3 is Stop
        }),
{
}

/// What the human's choice at the inter-task gate decides. Notes that hold
/// only whitespace count as none; enriching without notes is a plain repeat.
pub open spec fn spec_inter_task_decision(choice: InterTaskChoice, notes: Option<String>) -> CycleDecision {
    let given = match notes {
        Some(n) => if spec_trim(n@).len() > 0 { Some(n) } else { None },
        None => None,
    };
    match choice {
        InterTaskChoice::Advance => CycleDecision::Proceed,
        InterTaskChoice::Repeat => CycleDecision::RepeatCurrentTask { user_notes: given },
        InterTaskChoice::EnrichAndRepeat => match given {
            Some(n) => CycleDecision::EnrichAndRepeat { user_notes: n },
            None => CycleDecision::RepeatCurrentTask { user_notes: None },
        },
        InterTaskChoice::Abort => CycleDecision::Abort,
    }
}

/// The options of the inter-task gate, in the order they are shown.
#[derive(Debug, Clone, Copy, PartialEq, Eq)]
pub enum InterTaskChoice {
    Advance,
    Repeat,
    EnrichAndRepeat,
    Abort,
}

/// The decision taken at the inter-task gate from the option chosen and the
/// notes typed (if the option asked for any).
pub fn inter_task_decision(choice: InterTaskChoice, notes: Option<String>) -> (r: CycleDecision)
    ensures
        r == spec_inter_task_decision(choice, notes),
{
    let given = match notes {
        Some(n) => if is_blank(n.as_str()) {
            None
        } else {
            Some(n)
        },
        None => None,
    };
    match choice {
        InterTaskChoice::Advance => CycleDecision::Proceed,
        InterTaskChoice::Repeat => CycleDecision::RepeatCurrentTask { user_notes: given },
        InterTaskChoice::EnrichAndRepeat => match given {
            Some(n) => CycleDecision::EnrichAndRepeat { user_notes: n },
            None => CycleDecision::RepeatCurrentTask { user_notes: None },
        },
        InterTaskChoice::Abort => CycleDecision::Abort,
    }
}

/// The option the inter-task gate starts on: advancing after an approved
/// cycle, repeating after a rejected one.
pub fn inter_task_default_choice(approved: bool) -> (r: InterTaskChoice)
    ensures
        r == (if approved {
            InterTaskChoice::Advance
        } else {
            InterTaskChoice::Repeat
        }),
{
    if approved {
        InterTaskChoice::Advance
    } else {
        InterTaskChoice::Repeat
    }
}

/// The result of a cycle whose audit verdict was `approved`: an approved
/// patch is applied and the plan may proceed; a rejected one stops it.
pub fn cycle_result(approved: bool, summary: String) -> (r: CycleResult)
    ensures
        r.approved == approved,
        r.applied == approved,
        r.summary == summary,
        r.decision == (if approved {
            CycleDecision::Proceed
        } else {
            CycleDecision::Abort
        }),
{
    CycleResult {
        decision: if approved {
            CycleDecision::Proceed
        } else {
            CycleDecision::Abort
        },
        approved,
        applied: approved,
        summary,
    }
}

} // verus!

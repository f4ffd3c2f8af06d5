//! The rules of the orchestrator's history store: event kinds, and the
//! todo list of a plan with its status transitions, write lock and
//! task-picking order. Persistence itself lives outside this library; it
//! loads a plan's rows into a `TaskBoard`, applies these operations and
//! writes back the rows they changed.

use vstd::prelude::*;

use crate::schemas::Task;

use super::text::{chars_eq, chars_of, copy_opt_string, push_str, str_eq};

verus! {

broadcast use vstd::string::group_string_axioms;

// ── Event kinds ────────────────────────────────────────────────────────────

/// The kinds of events in a run's audit trail.
#[derive(Debug, Clone, Copy, PartialEq, Eq)]
pub enum EventType {
    PromptSent,
    ResponseReceived,
    GatePassed,
    GateEnriched,
    HandoffCreated,
    SecurityCheckPassed,
    SecurityBlocked,
    GitCheckPassed,
    GitCheckFailed,
    PatchSaved,
    AuditApproved,
    AuditRejected,
    ApplyConfirmed,
    PatchApplied,
}

/// The stored name of an event kind.
pub open spec fn spec_event_name(e: EventType) -> Seq<char> {
    match e {
        EventType::PromptSent => "prompt_sent"@,
        EventType::ResponseReceived => "response_received"@,
        EventType::GatePassed => "gate_passed"@,
        EventType::GateEnriched => "gate_enriched"@,
        EventType::HandoffCreated => "handoff_created"@,
        EventType::SecurityCheckPassed => "security_check_passed"@,
        EventType::SecurityBlocked => "security_blocked"@,
        EventType::GitCheckPassed => "git_check_passed"@,
        EventType::GitCheckFailed => "git_check_failed"@,
        EventType::PatchSaved => "patch_saved"@,
        EventType::AuditApproved => "audit_approved"@,
        EventType::AuditRejected => "audit_rejected"@,
        EventType::ApplyConfirmed => "apply_confirmed"@,
        EventType::PatchApplied => "patch_applied"@,
    }
}

impl EventType {
    /// The name under which the event kind is stored.
    pub fn as_str(&self) -> (r: &'static str)
        ensures
            r@ == spec_event_name(*self),
    {
        match self {
            EventType::PromptSent => "prompt_sent",
            EventType::ResponseReceived => "response_received",
            EventType::GatePassed => "gate_passed",
            EventType::GateEnriched => "gate_enriched",
            EventType::HandoffCreated => "handoff_created",
            EventType::SecurityCheckPassed => "security_check_passed",
            EventType::SecurityBlocked => "security_blocked",
            EventType::GitCheckPassed => "git_check_passed",
            EventType::GitCheckFailed => "git_check_failed",
            EventType::PatchSaved => "patch_saved",
            EventType::AuditApproved => "audit_approved",
            EventType::AuditRejected => "audit_rejected",
            EventType::ApplyConfirmed => "apply_confirmed",
            EventType::PatchApplied => "patch_applied",
        }
    }
}

// ── Read models ────────────────────────────────────────────────────────────

/// The project overview shown on the home screen.
#[derive(Debug, Default, Clone)]
pub struct ProjectSummary {
    pub plans_count: usize,
    pub last_plan_title: String,
    pub last_plan_status: String,
    pub tasks_completed: usize,
    pub tasks_total: usize,
    pub last_run_at: String,
}

/// One event of a run's audit trail.
#[derive(Debug, Clone)]
pub struct EventRow {
    pub id: i64,
    pub run_id: String,
    pub sequence: i64,
    pub event_type: String,
    pub from_agent: Option<String>,
    pub to_agent: Option<String>,
    pub content_summary: Option<String>,
    pub enriched_by_human: bool,
    pub human_notes: Option<String>,
    pub memory_url: Option<String>,
    pub timestamp: String,
}

/// One run of the project.
#[derive(Debug, Clone)]
pub struct RunRow {
    pub id: String,
    pub project_name: String,
    pub step_id: String,
    pub status: String,
    pub mode: String,
    pub base_commit: String,
    pub audit_approved: Option<bool>,
    pub audit_score: Option<i64>,
    pub created_at: String,
    pub updated_at: String,
}

// ── The todo list of a plan ────────────────────────────────────────────────

/// A stored task: the task, its place in the list and its write lock.
#[derive(Debug, Clone)]
pub struct TaskRow {
    pub task: Task,
    pub sequence: i64,
    pub write_locked: bool,
}

/// A task row as plain values.
pub struct RowView {
    pub id: Seq<char>,
    pub description: Seq<char>,
    pub status: Seq<char>,
    pub assigned_to: Option<Seq<char>>,
    pub sequence: i64,
    pub write_locked: bool,
}

/// An optional string as plain characters.
pub open spec fn opt_view(o: Option<String>) -> Option<Seq<char>> {
    match o {
        Some(s) => Some(s@),
        None => None,
    }
}

impl View for TaskRow {
    type V = RowView;

    open spec fn view(&self) -> RowView {
        RowView {
            id: self.task.id@,
            description: self.task.description@,
            status: self.task.status@,
            assigned_to: opt_view(self.task.assigned_to),
            sequence: self.sequence,
            write_locked: self.write_locked,
        }
    }
}

/// Task `t` carries the fields of row `r`.
pub open spec fn task_matches(t: Task, r: RowView) -> bool {
    &&& t.id@ == r.id
    &&& t.description@ == r.description
    &&& t.status@ == r.status
    &&& opt_view(t.assigned_to) == r.assigned_to
}

/// Row `r` occurs in `v`.
pub open spec fn has_row(v: Seq<RowView>, r: RowView) -> bool {
    exists|j: int| 0 <= j < v.len() && v[j] == r
}

/// Rows as plain values.
pub open spec fn rows_view(rows: Seq<TaskRow>) -> Seq<RowView> {
    rows.map_values(|r: TaskRow| r@)
}

/// The row with another status.
pub open spec fn with_status(r: RowView, status: Seq<char>) -> RowView {
    RowView { status: status, ..r }
}

/// The row with its write lock set.
pub open spec fn locked(r: RowView) -> RowView {
    RowView { write_locked: true, ..r }
}

/// Rows are in nondecreasing order of sequence.
pub open spec fn spec_sorted(v: Seq<RowView>) -> bool {
    forall|i: int, j: int| 0 <= i < j < v.len() ==> v[i].sequence <= v[j].sequence
}

/// No two rows share an id.
pub open spec fn spec_unique_ids(v: Seq<RowView>) -> bool {
    forall|i: int, j: int| 0 <= i < j < v.len() ==> v[i].id != v[j].id
}

/// The position of the row with id `id`, or `-1`.
pub open spec fn spec_find_id(v: Seq<RowView>, id: Seq<char>) -> int
    decreases v.len(),
{
    if v.len() == 0 {
        -1
    } else if v.last().id == id {
        v.len() - 1
    } else {
        spec_find_id(v.drop_last(), id)
    }
}

/// The position of the first row whose status is `status`, or `-1`.
pub open spec fn spec_first_with_status(v: Seq<RowView>, status: Seq<char>) -> int
    decreases v.len(),
{
    if v.len() == 0 {
        -1
    } else {
        let r = spec_first_with_status(v.drop_last(), status);
        if r >= 0 {
            r
        } else if v.last().status == status {
            v.len() - 1
        } else {
            -1
        }
    }
}

/// How many rows have status `status`.
pub open spec fn spec_count_status(v: Seq<RowView>, status: Seq<char>) -> nat
    decreases v.len(),
{
    if v.len() == 0 {
        0
    } else {
        spec_count_status(v.drop_last(), status) + (if v.last().status == status {
            1nat
        } else {
            0nat
        })
    }
}

/// Where a row with sequence `seq` goes: after every row whose sequence is
/// at most `seq`.
pub open spec fn spec_insert_pos(v: Seq<RowView>, seq: i64) -> int
    decreases v.len(),
{
    if v.len() == 0 {
        0
    } else if v.last().sequence <= seq {
        v.len() as int
    } else {
        spec_insert_pos(v.drop_last(), seq)
    }
}

/// The rows after `reset_in_progress_tasks`.
pub open spec fn spec_reset(v: Seq<RowView>) -> Seq<RowView> {
    v.map_values(|r: RowView| if r.status == "in_progress"@ {
        with_status(r, "pending"@)
    } else {
        r
    })
}

/// What `pick_next_task` does: the first pending row (in list order) becomes
/// in progress; `None` when there is none.
pub open spec fn spec_pick(v: Seq<RowView>) -> (Option<int>, Seq<RowView>) {
    let i = spec_first_with_status(v, "pending"@);
    if i < 0 {
        (None, v)
    } else {
        (Some(i), v.update(i, with_status(v[i], "in_progress"@)))
    }
}

/// Why a task-list operation was refused.
#[derive(Debug, Clone, PartialEq, Eq)]
pub enum TaskError {
    /// No task has this id.
    NotFound { task_id: String },
    /// The task is write-locked and the agent is not the Dev.
    Locked { task_id: String, agent: String },
    /// A task with this id already exists.
    DuplicateId { task_id: String },
}

/// What a status update yields: the new rows, or the refusal as plain values.
pub enum UpdateOutcome {
    Updated(Seq<RowView>),
    NotFound,
    Locked,
}

/// What `update_task_status` does: a missing task is not found; a locked
/// task refuses every agent but `dev`; otherwise the status is replaced.
pub open spec fn spec_update(v: Seq<RowView>, agent: Seq<char>, id: Seq<char>, status: Seq<char>) -> UpdateOutcome {
    let i = spec_find_id(v, id);
    if i < 0 {
        UpdateOutcome::NotFound
    } else if v[i].write_locked && agent != "dev"@ {
        UpdateOutcome::Locked
    } else {
        UpdateOutcome::Updated(v.update(i, with_status(v[i], status)))
    }
}

impl TaskError {
    /// The human-readable message of the refusal.
    pub fn message(&self) -> (r: String)
        ensures
            r@ == (match self {
                TaskError::NotFound { task_id } => "Query returned no rows"@,
                TaskError::Locked { task_id, agent } => "Tarefa "@ + task_id@
                    + " bloqueada para escrita (agente: "@ + agent@ + ")."@,
                TaskError::DuplicateId { task_id } => "UNIQUE constraint failed: tasks.id"@,
            }),
    {
        match self {
            TaskError::NotFound { task_id } => String::from_str("Query returned no rows"),
            TaskError::Locked { task_id, agent } => {
                let mut s = String::from_str("Tarefa ");
                push_str(&mut s, task_id.as_str());
                push_str(&mut s, " bloqueada para escrita (agente: ");
                push_str(&mut s, agent.as_str());
                push_str(&mut s, ").");
                s
            },
            TaskError::DuplicateId { task_id } => String::from_str(
                "UNIQUE constraint failed: tasks.id",
            ),
        }
    }
}

/// The todo list of one plan, kept in order of sequence.
pub struct TaskBoard {
    plan_id: String,
    rows: Vec<TaskRow>,
}

/// `spec_find_id` is the position of the row with that id, or `-1` when
/// there is none.
pub proof fn lemma_find_id(v: Seq<RowView>, id: Seq<char>)
    ensures
        -1 <= spec_find_id(v, id) < v.len(),
        spec_find_id(v, id) >= 0 ==> v[spec_find_id(v, id)].id == id,
        spec_find_id(v, id) < 0 ==> forall|j: int| 0 <= j < v.len() ==> v[j].id != id,
    decreases v.len(),
{
    if v.len() > 0 && v.last().id != id {
        lemma_find_id(v.drop_last(), id);
        assert forall|j: int| 0 <= j < v.len() - 1 implies v.drop_last()[j] == v[j] by {}
    }
}

/// `spec_first_with_status` is the first row with that status, or `-1` when
/// there is none.
pub proof fn lemma_first_with_status(v: Seq<RowView>, status: Seq<char>)
    ensures
        -1 <= spec_first_with_status(v, status) < v.len(),
        spec_first_with_status(v, status) >= 0 ==> v[spec_first_with_status(v, status)].status == status,
        forall|j: int| 0 <= j < v.len() && (spec_first_with_status(v, status) < 0 || j < spec_first_with_status(v, status))
            ==> v[j].status != status,
    decreases v.len(),
{
    if v.len() > 0 {
        lemma_first_with_status(v.drop_last(), status);
        assert forall|j: int| 0 <= j < v.len() - 1 implies v.drop_last()[j] == v[j] by {}
    }
}

/// In sorted rows, `spec_insert_pos` lies after every row with a sequence up
/// to `seq` and before every later one.
pub proof fn lemma_insert_pos(v: Seq<RowView>, seq: i64)
    requires
        spec_sorted(v),
    ensures
        0 <= spec_insert_pos(v, seq) <= v.len(),
        forall|j: int| 0 <= j < spec_insert_pos(v, seq) ==> v[j].sequence <= seq,
        forall|j: int| spec_insert_pos(v, seq) <= j < v.len() ==> v[j].sequence > seq,
    decreases v.len(),
{
    if v.len() > 0 && v.last().sequence > seq {
        let init = v.drop_last();
        assert forall|j: int| 0 <= j < init.len() implies init[j] == v[j] by {}
        lemma_insert_pos(init, seq);
    }
}

/// Locking keeps every id where it was.
proof fn lemma_find_id_locked(v: Seq<RowView>, id: Seq<char>)
    ensures
        spec_find_id(v.map_values(|r: RowView| locked(r)), id) == spec_find_id(v, id),
    decreases v.len(),
{
    let lv = v.map_values(|r: RowView| locked(r));
    if v.len() > 0 {
        assert(lv.drop_last() =~= v.drop_last().map_values(|r: RowView| locked(r)));
        assert(lv.last() == locked(v.last()));
        lemma_find_id_locked(v.drop_last(), id);
    }
}

/// Once a plan's tasks are locked, a status change of any of its tasks is
/// refused to every agent but `dev`, and granted to `dev`.
pub proof fn law_locked_tasks_answer_only_dev(v: Seq<RowView>, agent: Seq<char>, id: Seq<char>, status: Seq<char>)
    requires
        spec_find_id(v, id) >= 0,
    ensures
        agent != "dev"@ ==> spec_update(v.map_values(|r: RowView| locked(r)), agent, id, status) is Locked,
        agent == "dev"@ ==> spec_update(v.map_values(|r: RowView| locked(r)), agent, id, status) is Updated,
{
    lemma_find_id(v, id);
    lemma_find_id_locked(v, id);
}

/// After a reset no task is left in progress, and no other status changes.
pub proof fn law_reset_leaves_nothing_in_progress(v: Seq<RowView>)
    ensures
        spec_reset(v).len() == v.len(),
        forall|j: int| 0 <= j < v.len() ==> spec_reset(v)[j].status != "in_progress"@,
        forall|j: int| 0 <= j < v.len() && v[j].status != "in_progress"@ ==> spec_reset(v)[j] == v[j],
        forall|j: int| 0 <= j < v.len() && v[j].status == "in_progress"@ ==> spec_reset(v)[j].status == "pending"@,
{
    reveal_strlit("pending");
    reveal_strlit("in_progress");
    assert("pending"@.len() != "in_progress"@.len());
}

/// A picked task that is then given any status but pending is never picked
/// again: the next pick, if any, lies further down the list.
pub proof fn law_pick_moves_forward(v: Seq<RowView>, status: Seq<char>)
    requires
        spec_pick(v).0 is Some,
        status != "pending"@,
    ensures
        ({
            let i = spec_pick(v).0->0;
            let v1 = spec_pick(v).1;
            let v2 = v1.update(i, with_status(v1[i], status));
            match spec_pick(v2).0 {
                Some(j) => i < j,
                None => true,
            }
        }),
{
    let i = spec_pick(v).0->0;
    lemma_first_with_status(v, "pending"@);
    let v1 = spec_pick(v).1;
    let v2 = v1.update(i, with_status(v1[i], status));
    lemma_first_with_status(v2, "pending"@);
    let j = spec_first_with_status(v2, "pending"@);
    if j >= 0 && j <= i {
        assert(v2[j].status == "pending"@);
        if j < i {
            assert(v2[j] == v[j]);
        }
    }
}

/// Picking never reorders, adds or removes tasks: only the picked row moves
/// from pending to in progress.
pub proof fn law_pick_changes_one_row(v: Seq<RowView>)
    ensures
        spec_pick(v).1.len() == v.len(),
        match spec_pick(v).0 {
            Some(i) => 0 <= i < v.len() && v[i].status == "pending"@ && spec_pick(v).1[i].status == "in_progress"@
                && forall|j: int| 0 <= j < v.len() && j != i ==> spec_pick(v).1[j] == v[j],
            None => spec_pick(v).1 == v && forall|j: int| 0 <= j < v.len() ==> v[j].status != "pending"@,
        },
{
    lemma_first_with_status(v, "pending"@);
}

impl TaskBoard {
    /// The rows as plain values, in list order.
    pub closed spec fn view_rows(&self) -> Seq<RowView> {
        rows_view(self.rows@)
    }

    /// The plan these tasks belong to.
    pub closed spec fn spec_plan_id(&self) -> Seq<char> {
        self.plan_id@
    }

    /// Rows are ordered by sequence and ids are unique.
    pub open spec fn wf(&self) -> bool {
        spec_sorted(self.view_rows()) && spec_unique_ids(self.view_rows())
    }

    /// An empty todo list for plan `plan_id`.
    pub fn new(plan_id: &str) -> (r: TaskBoard)
        ensures
            r.wf(),
            r.view_rows().len() == 0,
            r.spec_plan_id() == plan_id@,
    {
        let r = TaskBoard { plan_id: String::from_str(plan_id), rows: Vec::new() };
        assert(r.view_rows() =~= Seq::<RowView>::empty());
        r
    }

    /// The plan these tasks belong to.
    pub fn plan_id(&self) -> (r: &str)
        ensures
            r@ == self.spec_plan_id(),
    {
        self.plan_id.as_str()
    }

    /// The number of tasks.
    pub fn len(&self) -> (r: usize)
        ensures
            r == self.view_rows().len(),
    {
        self.rows.len()
    }

    /// The position of the task with id `id`.
    fn find(&self, id: &str) -> (r: Option<usize>)
        ensures
            match r {
                Some(i) => i < self.view_rows().len() && spec_find_id(self.view_rows(), id@) == i,
                None => spec_find_id(self.view_rows(), id@) < 0,
            },
    {
        let target = chars_of(id);
        let mut i = self.rows.len();
        proof {
            assert(self.view_rows().take(i as int) =~= self.view_rows());
        }
        while i > 0
            invariant
                i <= self.rows@.len(),
                target@ == id@,
                spec_find_id(self.view_rows(), id@) == spec_find_id(self.view_rows().take(i as int), id@),
            decreases i,
        {
            let cur = chars_of(self.rows[i - 1].task.id.as_str());
            let ghost t = self.view_rows().take(i as int);
            assert(t.last() == self.rows@[i - 1]@);
            assert(t.drop_last() =~= self.view_rows().take(i - 1));
            if chars_eq(&cur, &target) {
                return Some(i - 1);
            }
            i = i - 1;
        }
        None
    }

    /// Inserts a row after every row whose sequence is at most its own.
    fn insert_row(&mut self, row: TaskRow) -> (r: Result<(), TaskError>)
        requires
            old(self).wf(),
        ensures
            final(self).wf(),
            final(self).spec_plan_id() == old(self).spec_plan_id(),
            spec_find_id(old(self).view_rows(), row@.id) >= 0 ==> r is Err && final(self).view_rows()
                == old(self).view_rows(),
            spec_find_id(old(self).view_rows(), row@.id) < 0 ==> r is Ok && final(self).view_rows()
                == old(self).view_rows().insert(spec_insert_pos(old(self).view_rows(), row.sequence), row@),
    {
        proof {
            lemma_find_id(self.view_rows(), row@.id);
            lemma_insert_pos(self.view_rows(), row.sequence);
        }
        if let Some(_) = self.find(row.task.id.as_str()) {
            return Err(TaskError::DuplicateId { task_id: row.task.id.clone() });
        }
        let mut p = self.rows.len();
        assert(self.view_rows().take(p as int) =~= self.view_rows());
        while p > 0 && self.rows[p - 1].sequence > row.sequence
            invariant
                p <= self.rows@.len(),
                self.wf(),
                spec_insert_pos(self.view_rows(), row.sequence) == spec_insert_pos(self.view_rows().take(p as int), row.sequence),
            decreases p,
        {
            let ghost t = self.view_rows().take(p as int);
            assert(t.last() == self.rows@[p - 1]@);
            assert(t.drop_last() =~= self.view_rows().take(p - 1));
            p = p - 1;
        }
        proof {
            let t = self.view_rows().take(p as int);
            if p > 0 {
                assert(t.last() == self.rows@[p - 1]@);
            }
            assert(spec_insert_pos(t, row.sequence) == p);
        }
        let ghost before = self.view_rows();
        let ghost rv = row@;
        self.rows.insert(p, row);
        proof {
            assert(self.view_rows() =~= before.insert(p as int, rv));
            let v = self.view_rows();
            assert forall|i: int, j: int| 0 <= i < j < v.len() implies v[i].sequence <= v[j].sequence by {
                if i < p && j > p {
                    assert(v[i] == before[i]);
                    assert(v[j] == before[j - 1]);
                } else if i < p && j == p {
                    assert(v[i] == before[i]);
                } else if i == p && j > p {
                    assert(v[j] == before[j - 1]);
                } else if j < p {
                    assert(v[i] == before[i] && v[j] == before[j]);
                } else {
                    assert(v[i] == before[i - 1] && v[j] == before[j - 1]);
                }
            }
            assert forall|i: int, j: int| 0 <= i < j < v.len() implies v[i].id != v[j].id by {
                if i < p && j > p {
                    assert(v[i] == before[i]);
                    assert(v[j] == before[j - 1]);
                } else if i < p && j == p {
                    assert(v[i] == before[i]);
                } else if i == p && j > p {
                    assert(v[j] == before[j - 1]);
                } else if j < p {
                    assert(v[i] == before[i] && v[j] == before[j]);
                } else {
                    assert(v[i] == before[i - 1] && v[j] == before[j - 1]);
                }
            }
        }
        Ok(())
    }

    /// Builds the todo list of `plan_id` from stored rows, whatever their
    /// order: the same rows, ordered by sequence. A repeated id is refused.
    pub fn load(plan_id: &str, rows: Vec<TaskRow>) -> (r: Result<TaskBoard, TaskError>)
        ensures
            r is Ok <==> spec_unique_ids(rows_view(rows@)),
            r matches Ok(b) ==> {
                &&& b.wf()
                &&& b.spec_plan_id() == plan_id@
                &&& b.view_rows().len() == rows@.len()
                &&& forall|i: int| 0 <= i < rows@.len() ==> has_row(b.view_rows(), #[trigger] rows@[i]@)
            },
    {
        let ghost src = rows_view(rows@);
        let mut board = TaskBoard::new(plan_id);
        let mut k: usize = 0;
        while k < rows.len()
            invariant
                k <= rows@.len(),
                src == rows_view(rows@),
                board.wf(),
                board.spec_plan_id() == plan_id@,
                board.view_rows().len() == k,
                spec_unique_ids(src.take(k as int)),
                forall|i: int| 0 <= i < k ==> has_row(board.view_rows(), #[trigger] src[i]),
                forall|j: int| 0 <= j < k ==> has_row(src.take(k as int), #[trigger] board.view_rows()[j]),
            decreases rows@.len() - k,
        {
            let row = clone_row(&rows[k]);
            let ghost before = board.view_rows();
            let ghost rv = row@;
            assert(rv == src[k as int]);
            proof {
                lemma_find_id(before, rv.id);
            }
            match board.insert_row(row) {
                Ok(()) => {
                    proof {
                        let p = spec_insert_pos(before, rv.sequence);
                        lemma_insert_pos(before, rv.sequence);
                        let after = board.view_rows();
                        let pre = src.take(k as int);
                        let post = src.take(k + 1);
                        assert(post =~= pre.push(rv));
                        assert(after[p] == rv);
                        assert forall|i: int| 0 <= i < k + 1 implies has_row(after, #[trigger] src[i]) by {
                            if i == k {
                                assert(after[p] == src[i]);
                            } else {
                                assert(has_row(before, src[i]));
                                let j0 = choose|j: int| 0 <= j < before.len() && before[j] == src[i];
                                if j0 < p {
                                    assert(after[j0] == before[j0]);
                                } else {
                                    assert(after[j0 + 1] == before[j0]);
                                }
                            }
                        }
                        assert forall|j: int| 0 <= j < k + 1 implies has_row(post, #[trigger] after[j]) by {
                            if j == p {
                                assert(post[k as int] == after[j]);
                            } else {
                                let jb = if j < p { j } else { j - 1 };
                                assert(after[j] == before[jb]);
                                assert(has_row(pre, before[jb]));
                                let i0 = choose|i: int| 0 <= i < pre.len() && pre[i] == before[jb];
                                assert(post[i0] == pre[i0]);
                            }
                        }
                        assert forall|a: int, b: int| 0 <= a < b < post.len() implies post[a].id != post[b].id by {
                            if b == k {
                                assert(has_row(before, pre[a]));
                                let j0 = choose|j: int| 0 <= j < before.len() && before[j] == pre[a];
                                assert(before[j0].id != rv.id);
                            } else {
                                assert(post[a] == pre[a] && post[b] == pre[b]);
                            }
                        }
                    }
                },
                Err(e) => {
                    proof {
                        let i0 = spec_find_id(before, rv.id);
                        assert(has_row(src.take(k as int), before[i0]));
                        let i1 = choose|i: int| 0 <= i < k && src.take(k as int)[i] == before[i0];
                        assert(src[i1].id == src[k as int].id);
                        assert(!spec_unique_ids(src));
                    }
                    return Err(e);
                },
            }
            k = k + 1;
        }
        assert(src.take(k as int) =~= src);
        assert forall|i: int| 0 <= i < rows@.len() implies has_row(board.view_rows(), #[trigger] rows@[i]@) by {
            assert(src[i] == rows@[i]@);
        }
        Ok(board)
    }

    /// `add_task`: a new pending, unlocked task placed by its sequence.
    pub fn add_task(
        &mut self,
        task_id: &str,
        description: &str,
        assigned_to: Option<&str>,
        sequence: i64,
    ) -> (r: Result<(), TaskError>)
        requires
            old(self).wf(),
        ensures
            final(self).wf(),
            final(self).spec_plan_id() == old(self).spec_plan_id(),
            spec_find_id(old(self).view_rows(), task_id@) >= 0 ==> r is Err && final(self).view_rows()
                == old(self).view_rows(),
            spec_find_id(old(self).view_rows(), task_id@) < 0 ==> r is Ok && final(self).view_rows()
                == old(self).view_rows().insert(
                spec_insert_pos(old(self).view_rows(), sequence),
                RowView {
                    id: task_id@,
                    description: description@,
                    status: "pending"@,
                    assigned_to: match assigned_to {
                        Some(a) => Some(a@),
                        None => None,
                    },
                    sequence: sequence,
                    write_locked: false,
                },
            ),
    {
        let assigned = match assigned_to {
            Some(a) => Some(String::from_str(a)),
            None => None,
        };
        let row = TaskRow {
            task: Task {
                id: String::from_str(task_id),
                description: String::from_str(description),
                status: String::from_str("pending"),
                assigned_to: assigned,
            },
            sequence,
            write_locked: false,
        };
        self.insert_row(row)
    }

    /// `lock_plan_tasks`: every task becomes write-locked, so that only the
    /// Dev agent may change it afterwards.
    pub fn lock_plan_tasks(&mut self)
        requires
            old(self).wf(),
        ensures
            final(self).wf(),
            final(self).spec_plan_id() == old(self).spec_plan_id(),
            final(self).view_rows() == old(self).view_rows().map_values(|r: RowView| locked(r)),
    {
        let ghost before = self.view_rows();
        let mut rows: Vec<TaskRow> = Vec::new();
        let mut i: usize = 0;
        while i < self.rows.len()
            invariant
                i <= self.rows@.len(),
                before == rows_view(self.rows@),
                rows@.len() == i,
                forall|j: int| 0 <= j < i ==> #[trigger] rows@[j]@ == locked(before[j]),
            decreases self.rows@.len() - i,
        {
            let mut row = clone_row(&self.rows[i]);
            row.write_locked = true;
            rows.push(row);
            i = i + 1;
        }
        assert(rows_view(rows@) =~= before.map_values(|r: RowView| locked(r))) by {
            assert forall|j: int| 0 <= j < rows@.len() implies rows_view(rows@)[j] == locked(before[j]) by {
                assert(rows@[j]@ == locked(before[j]));
            }
        }
        self.rows = rows;
        proof {
            let v = self.view_rows();
            assert forall|i: int, j: int| 0 <= i < j < v.len() implies v[i].sequence <= v[j].sequence && v[i].id != v[j].id by {
                assert(v[i].sequence == before[i].sequence && v[j].sequence == before[j].sequence);
                assert(v[i].id == before[i].id && v[j].id == before[j].id);
            }
        }
    }

    /// `update_task_status`: sets the status of task `task_id` on behalf of
    /// `agent`. A locked task accepts only the `dev` agent.
    pub fn update_task_status(&mut self, agent_name: &str, task_id: &str, status: &str) -> (r: Result<(), TaskError>)
        requires
            old(self).wf(),
        ensures
            final(self).wf(),
            final(self).spec_plan_id() == old(self).spec_plan_id(),
            match spec_update(old(self).view_rows(), agent_name@, task_id@, status@) {
                UpdateOutcome::Updated(v) => r is Ok && final(self).view_rows() == v,
                UpdateOutcome::NotFound => r matches Err(TaskError::NotFound { task_id: t }) && t@
                    == task_id@ && final(self).view_rows() == old(self).view_rows(),
                UpdateOutcome::Locked => r matches Err(TaskError::Locked { task_id: t, agent: a })
                    && t@ == task_id@ && a@ == agent_name@ && final(self).view_rows() == old(self).view_rows(),
            },
    {
        proof {
            lemma_find_id(self.view_rows(), task_id@);
        }
        let i = match self.find(task_id) {
            None => {
                return Err(TaskError::NotFound { task_id: String::from_str(task_id) });
            },
            Some(i) => i,
        };
        if self.rows[i].write_locked && !str_eq(agent_name, "dev") {
            return Err(
                TaskError::Locked {
                    task_id: String::from_str(task_id),
                    agent: String::from_str(agent_name),
                },
            );
        }
        self.set_status(i, status);
        Ok(())
    }

    /// Replaces the status of row `i`.
    fn set_status(&mut self, i: usize, status: &str)
        requires
            old(self).wf(),
            i < old(self).view_rows().len(),
        ensures
            final(self).wf(),
            final(self).spec_plan_id() == old(self).spec_plan_id(),
            final(self).view_rows() == old(self).view_rows().update(
                i as int,
                with_status(old(self).view_rows()[i as int], status@),
            ),
    {
        let ghost before = self.view_rows();
        let mut row = clone_row(&self.rows[i]);
        row.task.status = String::from_str(status);
        let ghost rv = row@;
        self.rows.set(i, row);
        proof {
            assert(self.view_rows() =~= before.update(i as int, rv));
            let v = self.view_rows();
            assert forall|a: int, b: int| 0 <= a < b < v.len() implies v[a].sequence <= v[b].sequence && v[a].id != v[b].id by {
                assert(v[a].sequence == before[a].sequence && v[b].sequence == before[b].sequence);
                assert(v[a].id == before[a].id && v[b].id == before[b].id);
            }
        }
    }

    /// `reset_in_progress_tasks`: every task left in progress (by an
    /// interrupted run) goes back to pending. Returns how many were reset.
    pub fn reset_in_progress_tasks(&mut self) -> (r: usize)
        requires
            old(self).wf(),
        ensures
            final(self).wf(),
            final(self).spec_plan_id() == old(self).spec_plan_id(),
            final(self).view_rows() == spec_reset(old(self).view_rows()),
            r == spec_count_status(old(self).view_rows(), "in_progress"@),
    {
        let ghost before = self.view_rows();
        let in_progress = chars_of("in_progress");
        let mut count: usize = 0;
        let mut i: usize = 0;
        while i < self.rows.len()
            invariant
                i <= self.rows@.len(),
                self.wf(),
                self.spec_plan_id() == old(self).spec_plan_id(),
                in_progress@ == "in_progress"@,
                before.len() == self.view_rows().len(),
                self.rows@.len() == before.len(),
                forall|j: int| 0 <= j < i ==> self.view_rows()[j] == spec_reset(before)[j],
                forall|j: int| i <= j < before.len() ==> self.view_rows()[j] == before[j],
                count == spec_count_status(before.take(i as int), "in_progress"@),
                count <= i,
            decreases self.rows@.len() - i,
        {
            assert(before.take(i + 1).drop_last() =~= before.take(i as int));
            assert(before.take(i + 1).last() == before[i as int]);
            let st = chars_of(self.rows[i].task.status.as_str());
            if chars_eq(&st, &in_progress) {
                self.set_status(i, "pending");
                assert(self.rows@.len() == self.view_rows().len());
                count = count + 1;
            }
            i = i + 1;
        }
        assert(before.take(before.len() as int) =~= before);
        assert(self.view_rows() =~= spec_reset(before));
        count
    }

    /// `pick_next_task`: the first pending task in list order becomes in
    /// progress and is returned; `None` when no task is pending.
    pub fn pick_next_task(&mut self) -> (r: Option<Task>)
        requires
            old(self).wf(),
        ensures
            final(self).wf(),
            final(self).spec_plan_id() == old(self).spec_plan_id(),
            final(self).view_rows() == spec_pick(old(self).view_rows()).1,
            match spec_pick(old(self).view_rows()).0 {
                Some(i) => r matches Some(t) && task_matches(t, old(self).view_rows()[i]),
                None => r is None,
            },
            r matches Some(t) ==> t.status@ == "pending"@ && (forall|j: int|
                0 <= j < old(self).view_rows().len() && old(self).view_rows()[j].status == "pending"@
                    ==> old(self).view_rows()[j].sequence >= old(self).view_rows()[spec_pick(
                    old(self).view_rows(),
                ).0->0].sequence),
    {
        proof {
            lemma_first_with_status(self.view_rows(), "pending"@);
        }
        let pending = chars_of("pending");
        let mut i: usize = 0;
        while i < self.rows.len()
            invariant
                i <= self.rows@.len(),
                pending@ == "pending"@,
                self.wf(),
                self.view_rows() == old(self).view_rows(),
                self.spec_plan_id() == old(self).spec_plan_id(),
                forall|j: int| 0 <= j < i ==> self.view_rows()[j].status != "pending"@,
            decreases self.rows@.len() - i,
        {
            let st = chars_of(self.rows[i].task.status.as_str());
            assert(self.view_rows()[i as int] == self.rows@[i as int]@);
            if chars_eq(&st, &pending) {
                proof {
                    lemma_first_with_status(self.view_rows(), "pending"@);
                    let f = spec_first_with_status(self.view_rows(), "pending"@);
                    assert(f == i);
                }
                let t = self.rows[i].task.duplicate();
                self.set_status(i, "in_progress");
                return Some(t);
            }
            i = i + 1;
        }
        None
    }

    /// `get_plan_tasks`: the tasks in list order.
    pub fn tasks(&self) -> (r: Vec<Task>)
        ensures
            r@.len() == self.view_rows().len(),
            forall|i: int| 0 <= i < r@.len() ==> task_matches(#[trigger] r@[i], self.view_rows()[i]),
    {
        let mut r: Vec<Task> = Vec::new();
        let mut i: usize = 0;
        while i < self.rows.len()
            invariant
                i <= self.rows@.len(),
                r@.len() == i,
                forall|j: int| 0 <= j < i ==> task_matches(#[trigger] r@[j], self.view_rows()[j]),
            decreases self.rows@.len() - i,
        {
            r.push(self.rows[i].task.duplicate());
            i = i + 1;
        }
        r
    }

    /// The stored rows in list order.
    pub fn rows(&self) -> (r: &Vec<TaskRow>)
        ensures
            rows_view(r@) == self.view_rows(),
    {
        &self.rows
    }
}

/// A field-for-field copy of a row.
pub fn clone_row(row: &TaskRow) -> (r: TaskRow)
    ensures
        r@ == row@,
        r.task == row.task,
        r.sequence == row.sequence,
        r.write_locked == row.write_locked,
{
    TaskRow { task: row.task.duplicate(), sequence: row.sequence, write_locked: row.write_locked }
}

/// The sequence number of the next planning turn: one past the largest so far.
pub fn next_turn_sequence(turns: &Vec<crate::schemas::PlanTurn>) -> (r: Option<i64>)
    ensures
        r matches Some(s) ==> (forall|i: int| 0 <= i < turns@.len() ==> turns@[i].sequence < s)
            && (s == 1 || exists|i: int| 0 <= i < turns@.len() && turns@[i].sequence + 1 == s),
        r is None ==> exists|i: int| 0 <= i < turns@.len() && turns@[i].sequence == i64::MAX,
{
    let mut max: i64 = 0;
    let mut i: usize = 0;
    while i < turns.len()
        invariant
            i <= turns@.len(),
            forall|j: int| 0 <= j < i ==> turns@[j].sequence <= max,
            max == 0 || exists|j: int| 0 <= j < i && turns@[j].sequence == max,
        decreases turns@.len() - i,
    {
        if turns[i].sequence > max {
            max = turns[i].sequence;
        }
        i = i + 1;
    }
    if max == i64::MAX {
        None
    } else {
        Some(max + 1)
    }
}

} // verus!

use ai_orchestrator::kernel::db::{next_turn_sequence, EventType, TaskBoard, TaskError, TaskRow};
use ai_orchestrator::schemas::{PlanTurn, Task};

fn board_with(tasks: &[(&str, &str, i64)]) -> TaskBoard {
    let mut b = TaskBoard::new("plan-001");
    for (id, desc, seq) in tasks {
        b.add_task(id, desc, None, *seq).unwrap();
    }
    b
}

#[test]
fn task_board_add_and_get_tasks() {
    let mut b = TaskBoard::new("plan-001");
    b.add_task("task-1", "Setup project", None, 1).unwrap();
    b.add_task("task-2", "Write tests", Some("dev"), 2).unwrap();
    let tasks = b.tasks();
    assert_eq!(tasks.len(), 2);
    assert_eq!(tasks[0].id, "task-1");
    assert_eq!(tasks[0].status, "pending");
    assert_eq!(tasks[0].assigned_to, None);
    assert_eq!(tasks[1].id, "task-2");
    assert_eq!(tasks[1].assigned_to, Some("dev".to_string()));
    assert_eq!(b.plan_id(), "plan-001");
}

#[test]
fn task_board_keeps_tasks_ordered_by_sequence() {
    let b = board_with(&[("task-c", "Third", 3), ("task-a", "First", 1), ("task-b", "Second", 2)]);
    let ids: Vec<String> = b.tasks().into_iter().map(|t| t.id).collect();
    assert_eq!(ids, vec!["task-a", "task-b", "task-c"]);
}

#[test]
fn task_board_refuses_duplicate_ids() {
    let mut b = board_with(&[("task-1", "One", 1)]);
    let err = b.add_task("task-1", "Again", None, 2).unwrap_err();
    assert_eq!(err.message(), "UNIQUE constraint failed: tasks.id");
    assert_eq!(b.len(), 1);
}

#[test]
fn task_board_lock_blocks_other_agents() {
    let mut b = board_with(&[("task-1", "Do something", 1)]);
    b.lock_plan_tasks();
    let err = b.update_task_status("architect", "task-1", "completed").unwrap_err();
    assert!(err.message().contains("bloqueada"));
    assert_eq!(err, TaskError::Locked { task_id: "task-1".to_string(), agent: "architect".to_string() });
    assert_eq!(b.tasks()[0].status, "pending");
}

#[test]
fn task_board_lock_does_not_block_dev_agent() {
    let mut b = board_with(&[("task-1", "Do something", 1)]);
    b.lock_plan_tasks();
    b.update_task_status("dev", "task-1", "completed").unwrap();
    assert_eq!(b.tasks()[0].status, "completed");
}

#[test]
fn task_board_update_changes_status_and_reports_missing() {
    let mut b = board_with(&[("task-1", "Do something", 1)]);
    b.update_task_status("architect", "task-1", "completed").unwrap();
    assert_eq!(b.tasks()[0].status, "completed");
    let err = b.update_task_status("dev", "nope", "completed").unwrap_err();
    assert_eq!(err.message(), "Query returned no rows");
}

#[test]
fn task_board_pick_returns_first_pending() {
    let mut b = board_with(&[("task-1", "First task", 1), ("task-2", "Second task", 2)]);
    let task = b.pick_next_task().expect("a pending task");
    assert_eq!(task.id, "task-1");
    let tasks = b.tasks();
    assert_eq!(tasks[0].status, "in_progress");
    assert_eq!(tasks[1].status, "pending");
}

#[test]
fn task_board_pick_returns_none_when_all_done() {
    let mut b = board_with(&[("task-1", "First task", 1)]);
    b.update_task_status("dev", "task-1", "completed").unwrap();
    assert!(b.pick_next_task().is_none());
}

#[test]
fn task_board_boards_are_isolated_per_plan() {
    let mut a = TaskBoard::new("plan-A");
    a.add_task("task-a1", "Task in A", None, 1).unwrap();
    let mut b = TaskBoard::new("plan-B");
    b.add_task("task-b1", "Task in B", None, 1).unwrap();
    assert_eq!(a.pick_next_task().unwrap().id, "task-a1");
    assert_eq!(b.pick_next_task().unwrap().id, "task-b1");
}

#[test]
fn task_board_reset_returns_in_progress_to_pending() {
    let mut b = board_with(&[("task-1", "First task", 1), ("task-2", "Second task", 2)]);
    b.pick_next_task();
    assert_eq!(b.reset_in_progress_tasks(), 1);
    let tasks = b.tasks();
    assert_eq!(tasks[0].status, "pending");
    assert_eq!(tasks[1].status, "pending");
}

#[test]
fn task_board_reset_returns_zero_when_nothing_in_progress() {
    let mut b = board_with(&[("task-1", "Task", 1)]);
    assert_eq!(b.reset_in_progress_tasks(), 0);
}

#[test]
fn task_board_completed_task_is_never_picked_again() {
    let mut b = board_with(&[("t1", "A", 1), ("t2", "B", 2), ("t3", "C", 3)]);
    let first = b.pick_next_task().unwrap();
    b.update_task_status("dev", &first.id, "completed").unwrap();
    let second = b.pick_next_task().unwrap();
    assert_eq!(second.id, "t2");
    b.update_task_status("dev", &second.id, "blocked").unwrap();
    assert_eq!(b.pick_next_task().unwrap().id, "t3");
    assert!(b.pick_next_task().is_none());
}

fn row(id: &str, seq: i64) -> TaskRow {
    TaskRow {
        task: Task {
            id: id.to_string(),
            description: format!("task {id}"),
            status: "pending".to_string(),
            assigned_to: None,
        },
        sequence: seq,
        write_locked: false,
    }
}

#[test]
fn task_board_load_orders_rows_and_refuses_repeats() {
    let b = TaskBoard::load("p", vec![row("b", 2), row("a", 1), row("c", 3)]).unwrap();
    let ids: Vec<String> = b.tasks().into_iter().map(|t| t.id).collect();
    assert_eq!(ids, vec!["a", "b", "c"]);
    assert!(TaskBoard::load("p", vec![row("a", 1), row("a", 2)]).is_err());
}

#[test]
fn event_type_names_are_stored_names() {
    assert_eq!(EventType::PromptSent.as_str(), "prompt_sent");
    assert_eq!(EventType::ResponseReceived.as_str(), "response_received");
    assert_eq!(EventType::SecurityBlocked.as_str(), "security_blocked");
    assert_eq!(EventType::PatchApplied.as_str(), "patch_applied");
}

fn turn(seq: i64) -> PlanTurn {
    PlanTurn {
        sequence: seq,
        agent: "architect".to_string(),
        prompt: "p".to_string(),
        content: "c".to_string(),
        timestamp: "t".to_string(),
    }
}

#[test]
fn next_turn_sequence_follows_the_largest() {
    assert_eq!(next_turn_sequence(&vec![]), Some(1));
    assert_eq!(next_turn_sequence(&vec![turn(1), turn(2)]), Some(3));
    assert_eq!(next_turn_sequence(&vec![turn(5), turn(2)]), Some(6));
    assert_eq!(next_turn_sequence(&vec![turn(i64::MAX)]), None);
}

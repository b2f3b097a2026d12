use apqp::command::{start, step, Action, Command, Feedback, Flow};
use apqp::repository::{Transaction, Write};
use apqp::errors::AppError;
use apqp::events::TaskEvent;
use apqp::models::task::{
    CreateTaskRequest, Priority, ProgressStatus, RiskStatus, Task, TaskDates, UpdateTaskRequest,
};
use apqp::time::Timestamp;

fn task(status: ProgressStatus, completion: u8) -> Task {
    Task {
        id: "task:t1".into(),
        subject: "PPAP".into(),
        description: String::new(),
        priority: Priority::Normal,
        progress_status: status,
        risk_status: RiskStatus::Green,
        completion,
        dates: TaskDates::default(),
        assigned_to: None,
        created_by: "u1".into(),
        party_id: None,
        parent_task_id: None,
        level: 0,
        norm_refs: vec![],
        tags: vec![],
        external_ref: None,
        created_at: Timestamp { secs: 0, nanos: 0 },
        updated_at: Timestamp { secs: 0, nanos: 0 },
        deleted_at: None,
    }
}

fn expect_tx(a: Action) -> Transaction {
    match a {
        Action::Write(tx) => tx,
        other => panic!("expected a transaction, got {:?}", other),
    }
}

fn create_req(parent: Option<&str>) -> CreateTaskRequest {
    CreateTaskRequest {
        subject: "S".into(),
        description: None,
        priority: None,
        dates: None,
        assigned_to: None,
        party_id: None,
        parent_task_id: parent.map(|p| p.to_string()),
        norm_refs: None,
        tags: None,
        external_ref: None,
    }
}

fn with_level(level: u8) -> Task {
    Task { level, ..task(ProgressStatus::Open, 0) }
}

fn expect_reply(a: Action) -> Result<Option<Task>, AppError> {
    match a {
        Action::Reply(r) => r,
        other => panic!("expected a reply, got {:?}", other),
    }
}

#[test]
fn transition_reads_then_commits_write_and_event_together() {
    let cmd = Command::Transition { id: "t1".into(), to: ProgressStatus::Completed, actor_id: "u1".into() };
    let (flow, a) = start(cmd, 1);
    assert!(matches!(&a, Action::Read { id } if id == "t1"));
    let (flow, a) = step(flow, Feedback::Read(Ok(Some(task(ProgressStatus::InProgress, 30)))));
    let tx = expect_tx(a);
    match &tx.write {
        Write::SetStatus { id, status, completion } => {
            assert_eq!((id.as_str(), *status, *completion), ("t1", ProgressStatus::Completed, 100));
        }
        other => panic!("{:?}", other),
    }
    assert!(tx.query.starts_with("BEGIN TRANSACTION;"));
    assert!(tx.query.contains("CREATE outbox SET"));
    let w = &tx.entry;
    assert_eq!(w.topic, "task.events");
    assert_eq!(w.aggregate, "task:t1");
    assert_eq!(w.event_type, "task.status_changed");
    assert_eq!(w.tenant_id, "00000000-0000-0000-0000-000000000001");
    assert_eq!(w.envelope.actor_id, "u1");
    assert_eq!(w.envelope.aggregate, "task:t1");
    match &w.envelope.payload {
        TaskEvent::StatusChanged(s) => {
            assert_eq!(s.task_id, "task:t1");
            assert_eq!((s.from_status, s.to_status, s.completion), (ProgressStatus::InProgress, ProgressStatus::Completed, 100));
        }
        e => panic!("{:?}", e),
    }
    let (flow, a) = step(flow, Feedback::Written(Ok(Some(task(ProgressStatus::Completed, 100)))));
    assert!(matches!(flow, Flow::Finished));
    let t = expect_reply(a).unwrap().unwrap();
    assert_eq!(t.progress_status, ProgressStatus::Completed);
}

#[test]
fn refused_transition_writes_nothing() {
    let (flow, _) = start(Command::Transition { id: "t1".into(), to: ProgressStatus::Open, actor_id: "u1".into() }, 1);
    let (flow, a) = step(flow, Feedback::Read(Ok(Some(task(ProgressStatus::Verified, 100)))));
    assert!(matches!(flow, Flow::Finished));
    let e = expect_reply(a).unwrap_err();
    assert_eq!(e.to_string(), "invalid state transition from verified to open");
}

#[test]
fn failed_transaction_is_answered_with_its_error() {
    let (flow, _) = start(Command::Transition { id: "t1".into(), to: ProgressStatus::InProgress, actor_id: "u1".into() }, 1);
    let (flow, _) = step(flow, Feedback::Read(Ok(Some(task(ProgressStatus::Open, 0)))));
    let (flow, a) = step(flow, Feedback::Written(Err(AppError::Database("outbox".into()))));
    assert!(matches!(flow, Flow::Finished));
    assert_eq!(expect_reply(a).unwrap_err().to_string(), "database error: outbox");
}

#[test]
fn missing_task_is_not_found() {
    let (flow, _) = start(Command::ChangeRisk { id: "t9".into(), to: RiskStatus::Red, reason: None, actor_id: "u1".into() }, 1);
    let (_, a) = step(flow, Feedback::Read(Ok(None)));
    assert_eq!(expect_reply(a).unwrap_err().to_string(), "not found: task:t9");
    let (flow, _) = start(Command::Transition { id: "t9".into(), to: ProgressStatus::Open, actor_id: "u1".into() }, 1);
    let (_, a) = step(flow, Feedback::Read(Err(AppError::Database("down".into()))));
    assert_eq!(expect_reply(a).unwrap_err().status_code(), 500);
}

#[test]
fn risk_change_records_old_and_new_risk() {
    let cmd = Command::ChangeRisk { id: "t1".into(), to: RiskStatus::Red, reason: Some("late".into()), actor_id: "u1".into() };
    let (flow, _) = start(cmd, 2);
    let (flow, a) = step(flow, Feedback::Read(Ok(Some(task(ProgressStatus::Open, 0)))));
    let tx = expect_tx(a);
    assert!(matches!(tx.write, Write::SetRisk { risk: RiskStatus::Red, .. }));
    match &tx.entry.envelope.payload {
        TaskEvent::RiskChanged(r) => {
            assert_eq!((r.from_risk, r.to_risk), (RiskStatus::Green, RiskStatus::Red));
            assert_eq!(r.reason.as_deref(), Some("late"));
        }
        e => panic!("{:?}", e),
    }
    let (_, a) = step(flow, Feedback::Written(Ok(Some(task(ProgressStatus::Open, 0)))));
    assert!(expect_reply(a).unwrap().is_some());
}

#[test]
fn delete_commits_its_event_unconditionally() {
    let (flow, a) = start(Command::Delete { id: "t3".into(), actor_id: "u1".into() }, 1);
    let tx = expect_tx(a);
    assert!(matches!(&tx.write, Write::SoftDelete { id } if id == "t3"));
    assert_eq!(tx.entry.aggregate, "task:t3");
    assert_eq!(tx.entry.event_type, "task.deleted");
    assert!(!tx.query.contains("IF array::len"));
    let (_, a) = step(flow, Feedback::Written(Ok(None)));
    assert!(expect_reply(a).unwrap().is_none());
}

#[test]
fn create_draws_a_key_and_announces_it() {
    let (flow, a) = start(Command::Create { req: create_req(None), actor_id: "u1".into() }, 1);
    let tx = expect_tx(a);
    match &tx.write {
        Write::Create { key, task } => {
            assert_eq!(key.len(), 32);
            assert_eq!((task.progress_status, task.risk_status, task.completion, task.level), (ProgressStatus::Open, RiskStatus::Pending, 0, 0));
            assert_eq!(tx.entry.aggregate, format!("task:{key}"));
            match &tx.entry.envelope.payload {
                TaskEvent::Created(c) => {
                    assert_eq!(c.task_id, format!("task:{key}"));
                    assert_eq!(c.assigned_to.as_deref(), Some(task.assigned_to.as_str()));
                    assert_eq!(c.party_id.as_deref(), Some(""));
                }
                e => panic!("{:?}", e),
            }
        }
        other => panic!("{:?}", other),
    }
    let (_, a) = step(flow, Feedback::Written(Ok(None)));
    assert_eq!(expect_reply(a).unwrap_err().to_string(), "internal error: CREATE returned no record");
}

#[test]
fn subtask_sits_one_level_below_its_parent() {
    let (flow, a) = start(Command::Create { req: create_req(Some("p1")), actor_id: "u1".into() }, 1);
    assert!(matches!(&a, Action::Read { id } if id == "p1"));
    let (_, a) = step(flow, Feedback::Read(Ok(Some(with_level(1)))));
    match expect_tx(a).write {
        Write::Create { task, .. } => {
            assert_eq!(task.level, 2);
            assert_eq!(task.parent_task_id, "p1");
        }
        other => panic!("{:?}", other),
    }
}

#[test]
fn fourth_level_is_refused() {
    let (flow, _) = start(Command::Create { req: create_req(Some("p1")), actor_id: "u1".into() }, 1);
    let (flow, a) = step(flow, Feedback::Read(Ok(Some(with_level(2)))));
    assert!(matches!(flow, Flow::Finished));
    let e = expect_reply(a).unwrap_err();
    assert_eq!(e.status_code(), 422);
    assert_eq!(e.to_string(), "validation error: tasks nest at most 3 levels deep");
}

#[test]
fn subtask_of_missing_parent_is_created_one_level_down() {
    let (flow, _) = start(Command::Create { req: create_req(Some("p9")), actor_id: "u1".into() }, 1);
    let (flow, a) = step(flow, Feedback::Read(Ok(None)));
    match expect_tx(a).write {
        Write::Create { task, .. } => {
            assert_eq!(task.level, 1);
            assert_eq!(task.parent_task_id, "p9");
        }
        other => panic!("{:?}", other),
    }
    assert!(matches!(flow, Flow::Writing { .. }));
}

#[test]
fn update_without_status_commits_at_once() {
    let req = UpdateTaskRequest { completion: Some(50), ..UpdateTaskRequest::default() };
    let (flow, a) = start(Command::Update { id: "t1".into(), req, actor_id: "u1".into() }, 1);
    let tx = expect_tx(a);
    match &tx.write {
        Write::Update { id, query, .. } => {
            assert_eq!(id, "t1");
            assert_eq!(query, "UPDATE type::record('task', $id) SET updated_at = time::now(), completion = 50 RETURN AFTER");
        }
        other => panic!("{:?}", other),
    }
    assert_eq!(tx.entry.event_type, "task.updated");
    let (_, a) = step(flow, Feedback::Written(Ok(None)));
    assert_eq!(expect_reply(a).unwrap_err().to_string(), "not found: task:t1");
}

#[test]
fn update_completion_above_hundred_is_refused() {
    let req = UpdateTaskRequest { completion: Some(250), ..UpdateTaskRequest::default() };
    let (flow, a) = start(Command::Update { id: "t1".into(), req, actor_id: "u1".into() }, 1);
    assert!(matches!(flow, Flow::Finished));
    let e = expect_reply(a).unwrap_err();
    assert_eq!(e.status_code(), 422);
    assert_eq!(e.to_string(), "validation error: completion must be between 0 and 100");
}

#[test]
fn update_status_follows_the_workflow() {
    let req = UpdateTaskRequest { progress_status: Some(ProgressStatus::Open), ..UpdateTaskRequest::default() };
    let (flow, a) = start(Command::Update { id: "t1".into(), req, actor_id: "u1".into() }, 1);
    assert!(matches!(&a, Action::Read { id } if id == "t1"));
    let (flow, a) = step(flow, Feedback::Read(Ok(Some(task(ProgressStatus::Cancelled, 0)))));
    assert!(matches!(flow, Flow::Finished));
    assert_eq!(expect_reply(a).unwrap_err().to_string(), "invalid state transition from cancelled to open");

    let req = UpdateTaskRequest { progress_status: Some(ProgressStatus::InProgress), ..UpdateTaskRequest::default() };
    let (flow, _) = start(Command::Update { id: "t1".into(), req, actor_id: "u1".into() }, 1);
    let (_, a) = step(flow, Feedback::Read(Ok(Some(task(ProgressStatus::Open, 0)))));
    assert!(matches!(expect_tx(a).write, Write::Update { .. }));

    let req = UpdateTaskRequest { progress_status: Some(ProgressStatus::Verified), ..UpdateTaskRequest::default() };
    let (flow, _) = start(Command::Update { id: "t1".into(), req, actor_id: "u1".into() }, 1);
    let (_, a) = step(flow, Feedback::Read(Ok(Some(task(ProgressStatus::Verified, 100)))));
    assert!(matches!(expect_tx(a).write, Write::Update { .. }));
}

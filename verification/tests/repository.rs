use apqp::errors::AppError;
use apqp::events::TaskEvent;
use apqp::models::task::{
    CreateTaskRequest, Priority, ProgressStatus, RiskStatus, Task, TaskDates, UpdateTaskRequest,
};
use apqp::repository::{
    created_event, deleted_event, found_or_not_found, list_tasks_query, new_task, outbox_write,
    plan_transition, risk_changed_event, status_changed_event, task_not_found, task_record_id,
    transaction, update_query_with, update_task_query, updated_event, Write, CREATE_TASK,
    SOFT_DELETE, WRITE_OUTBOX,
};
use apqp::time::Timestamp;

fn task(status: ProgressStatus, completion: u8) -> Task {
    Task {
        id: "task:t1".into(),
        subject: "PPAP".into(),
        description: String::new(),
        priority: Priority::High,
        progress_status: status,
        risk_status: RiskStatus::Yellow,
        completion,
        dates: TaskDates {
            planned_end: Some(Timestamp { secs: 1_700_000_000, nanos: 0 }),
            ..TaskDates::default()
        },
        assigned_to: Some("contact:c1".into()),
        created_by: "u1".into(),
        party_id: None,
        parent_task_id: None,
        level: 0,
        norm_refs: vec![],
        tags: vec![],
        external_ref: None,
        created_at: Timestamp { secs: 0, nanos: 0 },
        updated_at: Timestamp { secs: 0, nanos: 0 },
        deleted_at: None,
    }
}

const HEAD: &str = "SELECT id, subject, priority, progress_status, risk_status,\n                completion, dates.planned_end AS planned_end,\n                <string> assigned_to AS assigned_to,\n                <string> party_id AS party_id\n         FROM task WHERE ";

#[test]
fn list_query_without_filters() {
    let q = list_tasks_query(None, &None, &None, 25, 0);
    assert_eq!(
        q,
        format!("{HEAD}deleted_at = NONE\n         ORDER BY dates.planned_end ASC\n         LIMIT 25 START 0")
    );
}

#[test]
fn list_query_with_all_filters() {
    let q = list_tasks_query(
        Some(ProgressStatus::InProgress),
        &Some("c7".into()),
        &Some("p9".into()),
        10,
        4294967290,
    );
    assert_eq!(
        q,
        format!(
            "{HEAD}deleted_at = NONE AND progress_status = 'in_progress' AND assigned_to = contact:c7 AND party_id = party:p9\n         ORDER BY dates.planned_end ASC\n         LIMIT 10 START 4294967290"
        )
    );
}

#[test]
fn list_query_always_excludes_deleted() {
    for status in [None, Some(ProgressStatus::Open)] {
        let q = list_tasks_query(status, &None, &Some("p".into()), 1, 1);
        assert!(q.contains("WHERE deleted_at = NONE"));
    }
}

#[test]
fn empty_update_only_stamps_time() {
    let q = update_task_query(&UpdateTaskRequest::default());
    assert_eq!(q, "UPDATE type::record('task', $id) SET updated_at = time::now() RETURN AFTER");
}

#[test]
fn update_with_every_field() {
    let req = UpdateTaskRequest {
        subject: Some("New".into()),
        description: Some("d".into()),
        priority: Some(Priority::Low),
        progress_status: Some(ProgressStatus::Completed),
        risk_status: Some(RiskStatus::YellowRed),
        completion: Some(100),
        dates: Some(TaskDates::default()),
        assigned_to: Some("c2".into()),
        norm_refs: Some(vec!["ISO 9001".into(), "a\"b".into()]),
        tags: Some(vec![]),
        external_ref: None,
    };
    let q = update_task_query(&req);
    assert_eq!(
        q,
        "UPDATE type::record('task', $id) SET updated_at = time::now(), subject = 'New', description = 'd', priority = 'low', progress_status = 'completed', risk_status = 'yellow_red', completion = 100, dates = $dates, assigned_to = 'c2', norm_refs = [\"ISO 9001\",\"a\\\"b\"], tags = [] RETURN AFTER"
    );
}

#[test]
fn update_writes_dates_and_external_link() {
    let req = UpdateTaskRequest {
        dates: Some(TaskDates::default()),
        external_ref: Some(apqp::models::task::ExternalRef {
            system: "jira".into(),
            issue_key: "PROJ-1".into(),
            url: None,
            synced_at: None,
        }),
        ..UpdateTaskRequest::default()
    };
    assert_eq!(
        update_task_query(&req),
        "UPDATE type::record('task', $id) SET updated_at = time::now(), dates = $dates, external_ref = $external_ref RETURN AFTER"
    );
}

#[test]
fn update_with_given_json() {
    let req = UpdateTaskRequest { tags: Some(vec!["x".into()]), ..UpdateTaskRequest::default() };
    assert_eq!(
        update_query_with(&req, "unused", "[\"x\"]"),
        "UPDATE type::record('task', $id) SET updated_at = time::now(), tags = [\"x\"] RETURN AFTER"
    );
}

#[test]
fn new_task_defaults() {
    let req = CreateTaskRequest {
        subject: "Control plan".into(),
        description: None,
        priority: None,
        dates: None,
        assigned_to: None,
        party_id: None,
        parent_task_id: None,
        norm_refs: None,
        tags: None,
        external_ref: None,
    };
    let t = new_task(req, "u42", 0);
    assert_eq!(t.subject, "Control plan");
    assert_eq!(t.description, "");
    assert_eq!(t.priority, Priority::Normal);
    assert_eq!(t.progress_status, ProgressStatus::Open);
    assert_eq!(t.risk_status, RiskStatus::Pending);
    assert_eq!(t.completion, 0);
    assert_eq!(t.assigned_to, "");
    assert_eq!(t.created_by, "u42");
    assert_eq!(t.party_id, "");
    assert_eq!(t.parent_task_id, "");
    assert_eq!(t.level, 0);
    assert!(t.norm_refs.is_empty() && t.tags.is_empty() && t.dates.is_none());
}

#[test]
fn new_subtask_takes_the_given_level() {
    let req = CreateTaskRequest {
        subject: "Sub".into(),
        description: Some("x".into()),
        priority: Some(Priority::High),
        dates: Some(TaskDates::default()),
        assigned_to: Some("c1".into()),
        party_id: Some("p1".into()),
        parent_task_id: Some("task:t0".into()),
        norm_refs: Some(vec!["ISO".into()]),
        tags: Some(vec!["a".into()]),
        external_ref: None,
    };
    let t = new_task(req, "u1", 2);
    assert_eq!(t.level, 2);
    assert_eq!(t.parent_task_id, "task:t0");
    assert_eq!(t.priority, Priority::High);
    assert_eq!(t.description, "x");
    assert_eq!(t.norm_refs, vec!["ISO".to_string()]);
}

#[test]
fn allowed_transition_keeps_or_fills_completion() {
    assert_eq!(plan_transition(&task(ProgressStatus::Open, 10), ProgressStatus::InProgress).unwrap(), 10);
    assert_eq!(plan_transition(&task(ProgressStatus::InProgress, 40), ProgressStatus::Completed).unwrap(), 100);
    assert_eq!(plan_transition(&task(ProgressStatus::Completed, 90), ProgressStatus::Verified).unwrap(), 100);
    assert_eq!(plan_transition(&task(ProgressStatus::Completed, 90), ProgressStatus::Rejected).unwrap(), 90);
}

#[test]
fn refused_transition_names_both_statuses() {
    match plan_transition(&task(ProgressStatus::Open, 0), ProgressStatus::Verified) {
        Err(AppError::InvalidTransition { from, to }) => {
            assert_eq!(from, "open");
            assert_eq!(to, "verified");
        }
        other => panic!("unexpected {:?}", other),
    }
    let e = plan_transition(&task(ProgressStatus::Cancelled, 0), ProgressStatus::Open).unwrap_err();
    assert_eq!(e.to_string(), "invalid state transition from cancelled to open");
    assert_eq!(e.status_code(), 422);
}

#[test]
fn events_name_the_task() {
    let req = CreateTaskRequest {
        subject: "PPAP".into(),
        description: None,
        priority: Some(Priority::High),
        dates: Some(TaskDates {
            planned_end: Some(Timestamp { secs: 1_700_000_000, nanos: 0 }),
            ..TaskDates::default()
        }),
        assigned_to: Some("contact:c1".into()),
        party_id: None,
        parent_task_id: None,
        norm_refs: None,
        tags: None,
        external_ref: None,
    };
    let t = new_task(req, "u1", 0);
    match created_event("t1", &t) {
        TaskEvent::Created(c) => {
            assert_eq!(c.task_id, "task:t1");
            assert_eq!(c.subject, "PPAP");
            assert_eq!(c.priority, Priority::High);
            assert_eq!(c.assigned_to.as_deref(), Some("contact:c1"));
            // an absent party is announced as the empty text it is stored with
            assert_eq!(c.party_id.as_deref(), Some(""));
            assert_eq!(c.planned_end, Some(Timestamp { secs: 1_700_000_000, nanos: 0 }));
        }
        _ => panic!("wrong event"),
    }
    match updated_event("t1") {
        TaskEvent::Updated(u) => assert!(u.task_id == "task:t1" && u.subject.is_none() && u.priority.is_none()),
        _ => panic!("wrong event"),
    }
    match status_changed_event("t1", ProgressStatus::Open, ProgressStatus::InProgress, 5) {
        TaskEvent::StatusChanged(s) => {
            assert_eq!(s.task_id, "task:t1");
            assert_eq!((s.from_status, s.to_status, s.completion), (ProgressStatus::Open, ProgressStatus::InProgress, 5));
        }
        _ => panic!("wrong event"),
    }
    match risk_changed_event("t1", RiskStatus::Green, RiskStatus::Red, Some("supplier".into())) {
        TaskEvent::RiskChanged(r) => {
            assert_eq!((r.from_risk, r.to_risk), (RiskStatus::Green, RiskStatus::Red));
            assert_eq!(r.reason.as_deref(), Some("supplier"));
        }
        _ => panic!("wrong event"),
    }
    match deleted_event("t9") {
        TaskEvent::Deleted(d) => assert_eq!(d.task_id, "task:t9"),
        _ => panic!("wrong event"),
    }
    assert_eq!(task_record_id("t9"), "task:t9");
}

#[test]
fn outbox_entry_carries_an_envelope() {
    let w = outbox_write(
        "task:t1".into(),
        updated_event("t1"),
        0x0123456789abcdef0123456789abcdefu128,
        "u7".into(),
    );
    assert_eq!(w.topic, "task.events");
    assert_eq!(w.aggregate, "task:t1");
    assert_eq!(w.event_type, "task.updated");
    assert_eq!(w.event_type, w.envelope.payload.event_type());
    assert_eq!(w.tenant_id, "01234567-89ab-cdef-0123-456789abcdef");
    assert_eq!(w.envelope.event_type, "task.updated");
    assert_eq!(w.envelope.aggregate, "task:t1");
    assert_eq!(w.envelope.tenant_id, 0x0123456789abcdef0123456789abcdefu128);
    assert_eq!(w.envelope.actor_id, "u7");
    assert_eq!((w.envelope.event_id >> 76) & 0xf, 4);
    let w = outbox_write("task:x".into(), deleted_event("x"), 1, "u1".into());
    assert_eq!(w.event_type, "task.deleted");
    assert_eq!(w.tenant_id, "00000000-0000-0000-0000-000000000001");
}

#[test]
fn write_and_outbox_entry_share_one_transaction() {
    let entry = outbox_write("task:t1".into(), updated_event("t1"), 1, "u1".into());
    let tx = transaction(
        Write::SetRisk { id: "t1".into(), risk: RiskStatus::Red },
        entry.clone(),
    );
    assert!(tx.query.starts_with("BEGIN TRANSACTION;\nLET $task = (UPDATE type::record('task', $id) MERGE {"));
    assert!(tx.query.ends_with(&format!(");\nIF array::len($task) > 0 {{\n{};\n}};\nCOMMIT TRANSACTION;\nRETURN $task;", WRITE_OUTBOX)));
    let tx = transaction(Write::SoftDelete { id: "t1".into() }, entry);
    assert_eq!(
        tx.query,
        format!("BEGIN TRANSACTION;\n{};\n{};\nCOMMIT TRANSACTION;", SOFT_DELETE, WRITE_OUTBOX)
    );
    assert!(CREATE_TASK.starts_with("CREATE type::record('task', $id) CONTENT {"));
}

#[test]
fn missing_records() {
    match task_not_found("t5") {
        AppError::NotFound(m) => assert_eq!(m, "task:t5"),
        _ => panic!(),
    }
    assert!(found_or_not_found(Some(task(ProgressStatus::Open, 0)), "t1").is_ok());
    assert_eq!(found_or_not_found(None, "t2").unwrap_err().to_string(), "not found: task:t2");
}

#[test]
fn list_json_escapes_control_characters() {
    let req = UpdateTaskRequest {
        tags: Some(vec!["a\nb".into(), "\u{1}".into(), "ü\\".into()]),
        ..UpdateTaskRequest::default()
    };
    assert_eq!(
        update_task_query(&req),
        "UPDATE type::record('task', $id) SET updated_at = time::now(), tags = [\"a\\nb\",\"\\u0001\",\"ü\\\\\"] RETURN AFTER"
    );
}

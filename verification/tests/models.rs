use apqp::events::{EventEnvelope, TaskDeleted, TaskEvent};
use apqp::models::contact::{Contact, ContactStatus};
use apqp::models::task::{TaskDates, UpdateTaskRequest};
use apqp::models::user::UserRole;
use apqp::time::{now, Timestamp};

#[test]
fn contact_full_name() {
    let c = Contact {
        id: "contact:1".into(),
        first_name: "Ada".into(),
        last_name: "Lovelace".into(),
        email: None,
        phone: None,
        role: "QE".into(),
        department: "Quality".into(),
        party_id: None,
        status: ContactStatus::Active,
        avatar_url: None,
        assigned_to: None,
        address: None,
        created_at: Timestamp { secs: 0, nanos: 0 },
        updated_at: Timestamp { secs: 0, nanos: 0 },
    };
    assert_eq!(c.full_name(), "Ada Lovelace");
}

#[test]
fn enum_texts() {
    assert_eq!(UserRole::Admin.to_string(), "admin");
    assert_eq!(UserRole::Guest.to_string(), "guest");
    assert_eq!(ContactStatus::Prospect.to_string(), "prospect");
    assert_eq!(ContactStatus::Inactive.to_string(), "inactive");
}

#[test]
fn defaults_are_empty() {
    assert_eq!(TaskDates::default(), TaskDates {
        planned_start: None,
        planned_end: None,
        estimated_start: None,
        estimated_end: None,
        finalized_start: None,
        finalized_end: None,
        agreed_date: None,
    });
    let u = UpdateTaskRequest::default();
    assert!(u.subject.is_none() && u.completion.is_none() && u.tags.is_none());
}

#[test]
fn event_types() {
    let e = TaskEvent::Deleted(TaskDeleted { task_id: "task:1".into() });
    assert_eq!(e.event_type(), "task.deleted");
}

#[test]
fn envelopes() {
    let before = now();
    let e = EventEnvelope::new("task.deleted".into(), "task:1".into(), 7, "u1".into(), 3u8);
    assert_eq!((e.event_type.as_str(), e.aggregate.as_str(), e.tenant_id, e.actor_id.as_str(), e.payload), ("task.deleted", "task:1", 7, "u1", 3));
    assert_eq!((e.event_id >> 76) & 0xf, 4);
    assert!(e.occurred_at.secs >= before.secs && e.occurred_at.nanos < 1_000_000_000);
    let s = EventEnvelope::stamped(5, Timestamp { secs: 1, nanos: 2 }, "t".into(), "a".into(), 0, "x".into(), ());
    assert_eq!((s.event_id, s.occurred_at), (5, Timestamp { secs: 1, nanos: 2 }));
}

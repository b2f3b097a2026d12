//! Domain events, their envelope and the outbox row that carries them.
pub mod topics;

use vstd::prelude::*;
use crate::ids;
use crate::models::task::{Priority, ProgressStatus, RiskStatus};
use crate::time::{self, Timestamp};

verus! {

/// Wraps every published domain event with routing metadata.
#[derive(Debug, Clone)]
pub struct EventEnvelope<T> {
    /// Globally unique event id (a version 4 UUID).
    pub event_id: u128,
    /// Dot-separated event type, e.g. "task.created".
    pub event_type: String,
    /// Aggregate root id, e.g. "task:t1".
    pub aggregate: String,
    /// Tenant, for routing and database selection.
    pub tenant_id: u128,
    /// User who triggered the event.
    pub actor_id: String,
    /// Business time of the event.
    pub occurred_at: Timestamp,
    pub payload: T,
}

impl<T> EventEnvelope<T> {
    /// An envelope with the given id and time.
    pub fn stamped(
        event_id: u128,
        occurred_at: Timestamp,
        event_type: String,
        aggregate: String,
        tenant_id: u128,
        actor_id: String,
        payload: T,
    ) -> (r: Self)
        ensures
            r.event_id == event_id,
            r.occurred_at == occurred_at,
            r.event_type == event_type,
            r.aggregate == aggregate,
            r.tenant_id == tenant_id,
            r.actor_id == actor_id,
            r.payload == payload,
    {
        EventEnvelope { event_id, event_type, aggregate, tenant_id, actor_id, occurred_at, payload }
    }

    /// An envelope with a fresh random id, stamped with the current time.
    pub fn new(
        event_type: String,
        aggregate: String,
        tenant_id: u128,
        actor_id: String,
        payload: T,
    ) -> (r: Self)
        ensures
            (r.event_id >> 76u128) & 0xfu128 == 4,
            (r.event_id >> 62u128) & 0x3u128 == 2,
            r.occurred_at.secs >= 0,
            r.occurred_at.nanos < 1_000_000_000,
            r.event_type == event_type,
            r.aggregate == aggregate,
            r.tenant_id == tenant_id,
            r.actor_id == actor_id,
            r.payload == payload,
    {
        let id = ids::new_v4();
        let at = time::now();
        Self::stamped(id, at, event_type, aggregate, tenant_id, actor_id, payload)
    }
}

/// All task event payloads.
#[derive(Debug, Clone)]
pub enum TaskEvent {
    Created(TaskCreated),
    Updated(TaskUpdated),
    StatusChanged(TaskStatusChanged),
    RiskChanged(TaskRiskChanged),
    Completed(TaskCompleted),
    Cancelled(TaskCancelled),
    Deleted(TaskDeleted),
    AssigneeChanged(TaskAssigneeChanged),
}

/// The type name of a task event.
pub open spec fn event_type_of(e: TaskEvent) -> Seq<char> {
    match e {
        TaskEvent::Created(_) => "task.created"@,
        TaskEvent::Updated(_) => "task.updated"@,
        TaskEvent::StatusChanged(_) => "task.status_changed"@,
        TaskEvent::RiskChanged(_) => "task.risk_changed"@,
        TaskEvent::Completed(_) => "task.completed"@,
        TaskEvent::Cancelled(_) => "task.cancelled"@,
        TaskEvent::Deleted(_) => "task.deleted"@,
        TaskEvent::AssigneeChanged(_) => "task.assignee_changed"@,
    }
}

impl TaskEvent {
    /// The dot-separated type name of the event.
    pub fn event_type(&self) -> (r: &'static str)
        ensures
            r@ == event_type_of(*self),
    {
        match self {
            TaskEvent::Created(_) => "task.created",
            TaskEvent::Updated(_) => "task.updated",
            TaskEvent::StatusChanged(_) => "task.status_changed",
            TaskEvent::RiskChanged(_) => "task.risk_changed",
            TaskEvent::Completed(_) => "task.completed",
            TaskEvent::Cancelled(_) => "task.cancelled",
            TaskEvent::Deleted(_) => "task.deleted",
            TaskEvent::AssigneeChanged(_) => "task.assignee_changed",
        }
    }
}

#[derive(Debug, Clone)]
pub struct TaskCreated {
    pub task_id: String,
    pub subject: String,
    pub priority: Priority,
    pub assigned_to: Option<String>,
    pub party_id: Option<String>,
    pub planned_end: Option<Timestamp>,
}

#[derive(Debug, Clone)]
pub struct TaskUpdated {
    pub task_id: String,
    pub subject: Option<String>,
    pub priority: Option<Priority>,
}

#[derive(Debug, Clone)]
pub struct TaskStatusChanged {
    pub task_id: String,
    pub from_status: ProgressStatus,
    pub to_status: ProgressStatus,
    pub completion: u8,
}

#[derive(Debug, Clone)]
pub struct TaskRiskChanged {
    pub task_id: String,
    pub from_risk: RiskStatus,
    pub to_risk: RiskStatus,
    pub reason: Option<String>,
}

#[derive(Debug, Clone)]
pub struct TaskCompleted {
    pub task_id: String,
    pub completed_at: Timestamp,
    pub completion: u8,
}

#[derive(Debug, Clone)]
pub struct TaskCancelled {
    pub task_id: String,
    pub reason: Option<String>,
}

#[derive(Debug, Clone)]
pub struct TaskDeleted {
    pub task_id: String,
}

#[derive(Debug, Clone)]
pub struct TaskAssigneeChanged {
    pub task_id: String,
    pub from_assignee: Option<String>,
    pub to_assignee: Option<String>,
}

/// Notification payloads.
#[derive(Debug, Clone)]
pub enum NotificationEvent {
    TaskOverdue(TaskOverdueNotification),
    TaskAssigned(TaskAssignedNotification),
    StatusChanged(StatusChangedNotification),
    RiskEscalated(RiskEscalatedNotification),
}

#[derive(Debug, Clone)]
pub struct TaskOverdueNotification {
    pub task_id: String,
    pub subject: String,
    pub assignee_id: String,
    pub planned_end: Timestamp,
    pub days_overdue: i64,
}

#[derive(Debug, Clone)]
pub struct TaskAssignedNotification {
    pub task_id: String,
    pub subject: String,
    pub assignee_id: String,
    pub assigned_by: String,
}

#[derive(Debug, Clone)]
pub struct StatusChangedNotification {
    pub task_id: String,
    pub subject: String,
    pub from_status: ProgressStatus,
    pub to_status: ProgressStatus,
    pub actor_id: String,
}

#[derive(Debug, Clone)]
pub struct RiskEscalatedNotification {
    pub task_id: String,
    pub subject: String,
    pub risk: RiskStatus,
    pub party_id: Option<String>,
    pub actor_id: String,
}

/// A message that a consumer failed to process.
#[derive(Debug, Clone)]
pub struct DeadLetterEvent {
    /// Topic the failed message came from.
    pub source_topic: String,
    /// Id of the failed event.
    pub source_event: u128,
    /// The failed payload as JSON text.
    pub original_body: String,
    /// Error message of the failing consumer.
    pub error: String,
    pub failed_at: Timestamp,
    pub retry_count: u32,
}

/// A row of the outbox table, read back by the publishing worker.
#[derive(Debug, Clone)]
pub struct OutboxRow {
    pub id: String,
    pub topic: String,
    pub aggregate: String,
    pub event_type: String,
    /// The serialised event envelope.
    pub payload: String,
    pub tenant_id: String,
    pub created_at: Timestamp,
    pub sent_at: Option<Timestamp>,
    pub failed_at: Option<Timestamp>,
    pub retry_count: u32,
}

} // verus!

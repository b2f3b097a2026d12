//! Message topics.
use vstd::prelude::*;

verus! {

/// Task service to all consumers.
pub const TASK_EVENTS: &'static str = "task.events";
/// Task service to notifications and external connectors.
pub const PROJECT_EVENTS: &'static str = "project.events";
/// Complaint service to notifications and external connectors.
pub const COMPLAINT_EVENTS: &'static str = "complaint.events";
/// All services to the notification service (email, WebSocket, chat).
pub const NOTIFICATIONS: &'static str = "notifications";
/// All services to monitoring and the dead-letter handler.
pub const DEAD_LETTER: &'static str = "dead.letter";

} // verus!

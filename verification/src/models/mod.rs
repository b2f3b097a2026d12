//! Domain types shared by the service and its clients.
pub mod api;
pub mod contact;
pub mod party;
pub mod task;
pub mod task_laws;
pub mod user;

//! Domain core of the APQP task service: task workflow rules, request
//! validation, query construction and event payloads.

pub mod client;
pub mod command;
pub mod config;
pub mod error;
pub mod errors;
pub mod events;
pub mod ids;
pub mod laws;
pub mod models;
pub mod repository;
pub mod service;
pub mod tenant;
pub mod text;
pub mod time;
pub mod ui;

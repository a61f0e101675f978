//! Task lifecycle workflow engine: the status state machine, the role and
//! priority rules laid over it, and the analytics derived from a task's
//! append-only status history.

pub mod application;
pub mod config;
pub mod domain;
pub mod errors;
pub mod models;
pub mod persistence;
pub mod responses;
pub mod services;
pub mod text;
pub mod web;

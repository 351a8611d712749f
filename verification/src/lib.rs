//! Core of a self-hosted status dashboard.
//!
//! For each configured monitor the dashboard periodically runs an external
//! health-check command, classifies the result into a tri-state status,
//! and keeps a bounded rolling history of recent outcomes. This crate holds
//! the verified core: the scheduling state machine, the outcome model, the
//! status classifier, the bounded history store, and the snapshot builder.
//! Process spawning, file loading and thread plumbing live outside the core
//! and drive it through the functions defined here.

pub mod classifier;
pub mod config;
pub mod history;
pub mod outcome;
pub mod registry;
pub mod scheduler;
pub mod status;
pub mod worker;

//! The task queue: triggers, registry, pending tasks and the worker's decisions.

pub mod actions;
pub mod backoff;
pub mod defaults;
pub mod errors;
pub mod order;
pub mod pending;
pub mod recurring;
pub mod registry;
pub mod runner;
pub mod sample;
pub mod settings;
pub mod task_manager;
pub mod time;
pub mod trigger;
pub mod worker;

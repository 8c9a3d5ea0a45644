//! The stored form of queued tasks and of the workers that run them.

pub mod queries;
pub mod task;
pub mod worker_id;

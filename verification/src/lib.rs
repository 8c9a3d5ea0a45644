//! Eden's scheduling, settings and payment-record logic, verified with Verus.

pub mod foreign;
pub mod nonzero;
pub mod text;
pub mod schema;
pub mod settings;
pub mod sql;
pub mod tasks;
pub mod tasks_schema;

//! Throughput measurement of voluntary task suspension.
//!
//! One task runs forever: it does a unit of work, then yields to its scheduler.
//! A [`recorder::Recorder`] counts those cycles and, once per batch, measures how
//! long the batch took. The scheduler is one of two [`model::ExecutionModel`]s.

mod clock;
pub mod history;
pub mod model;
pub mod recorder;
pub mod report;

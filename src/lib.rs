//! A distributed task queue: the task lifecycle, the broker's key layout and
//! the pipelines that move tasks between its ordered sets, the schedule
//! arithmetic of recurring jobs, and the decisions of the worker engine.
//!
//! Time is held as Unix seconds (`i64`) and identifiers as 128-bit integers.

pub mod text;
pub mod error;
pub mod task;
pub mod keys;
pub mod queue;
pub mod scheduler;
pub mod registry;
pub mod worker;
pub mod client;
pub mod laws;

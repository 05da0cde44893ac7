//! A two-tier task dispatch engine: a fast execution context that serves
//! requests, a background execution context for blocking work, and a bounded
//! hand-off channel between them.

pub mod consumer;
pub mod counter;
pub mod error;
pub mod fast_path;
pub mod handoff;
pub mod history;
pub mod response;
pub mod sizing;
pub mod task_runner;
pub mod work;

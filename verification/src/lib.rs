//! Concurrent multi-job transcription core: a bounded pool of engine
//! execution contexts handed out round-robin, per-job normalization and
//! validation decisions, and first-failure-wins batch aggregation.

pub mod audio;
pub mod batch;
pub mod env_opts;
pub mod naming;
pub mod pool;
pub mod runner;

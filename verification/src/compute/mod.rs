//! A pool of threads for CPU-bound work.
//!
//! Work that waits belongs to the asynchronous runtime; work that computes is
//! handed to this pool, which is made once and shared.

pub mod config;
pub mod context;
pub mod metrics;
pub mod parallel;
pub mod pool;
pub mod strategy;
pub mod validation;

//! Work queue.

pub mod priority;

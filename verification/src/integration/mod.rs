//! Integration with event buses and the guardian.

pub mod events;
pub mod guardian;

//! Multi-agent orchestration: agent lifecycle, registry, consensus,
//! a bounded priority work queue, and the decision logic of the status
//! server and guardian integration, with their contracts proved by Verus.

pub mod text;
pub mod types;
pub mod error;
pub mod agent;
pub mod queue;
pub mod consensus;
pub mod integration;
pub mod status;

//! Per-frame rendering orchestration: a fixed six-stage frame pipeline, the
//! transient per-frame recording state, and the registry of per-window
//! presentation surfaces kept in step with window notifications.

pub mod stage;
pub mod surface;
pub mod frame;
pub mod scheduler;
pub mod bridge;
pub mod schedule;

//! Supervision of a local background server ("sidecar") that a desktop
//! application launches, waits for, and tears down again.

pub mod decimal;
pub mod laws;
pub mod loopback;
pub mod model;
pub mod platform;
pub mod protocol;
pub mod readiness;
pub mod resolve;
pub mod spawn_spec;
pub mod supervisor;
pub mod teardown;
pub mod trace;

//! Live telemetry for a slot-car race track: the controller's line protocol,
//! a per-car state machine that turns commands into events, and the rules a
//! viewer of the event feed follows.

pub mod model;
pub mod telemetry;
pub mod protocol;
pub mod feed;
pub mod locator;
pub mod link;
pub mod laws;

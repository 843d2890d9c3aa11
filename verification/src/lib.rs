//! Watching the top bid of a relay and submitting blocks to relays.
//!
//! The library decides; whoever calls it talks to the network, waits and counts. What it trusts of
//! other crates is said above each function that calls one.

pub mod best_bid;
pub mod builder_tx;
pub mod error_events;
pub mod metrics;
pub mod primitives;
pub mod relay_submission;
pub mod relays;
pub mod sink_factory;
pub mod socket_bid;
pub mod ssz_layout;
pub mod step_laws;
pub mod submit_job;
pub mod submit_laws;
pub mod submit_time;
pub mod text;
pub mod u256;
pub mod validation;

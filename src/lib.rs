//! Connection bootstrap for a device that brings up a wireless link, opens a
//! mutually authenticated session to a message broker and publishes one
//! status event.
//!
//! The library holds the decisions; the radio, the TLS stack and the broker
//! client are driven by the caller, which reports their results back.
pub mod credential;
pub mod error;
pub mod link;
pub mod orchestrator;
pub mod session;

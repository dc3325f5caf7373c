//! Verified core of a SOME/IP request/response client.
//!
//! The crate models the three subsystems that need protocol reasoning:
//! the frame accumulator that carves length-delimited messages out of a
//! TCP byte stream, the request/response engine that classifies incoming
//! frames, and the service-discovery matcher that filters multicast
//! announcements against a find-service query. Wire encoding and decoding
//! of headers and discovery entries is delegated to the `someip_parse`
//! crate through a small set of trusted wrappers; everything built on top
//! of those wrappers is verified.

pub mod discovery;
pub mod errors;
pub mod frame;
pub mod hello;
pub mod rpc;
pub mod wire;

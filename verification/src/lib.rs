//! Mirroring of chat messages to webhook destinations.
//!
//! The crate holds the decisions of a one-way message mirror: how an inbound
//! chat message becomes an outbound webhook payload, which channels are
//! mirrored at all, and what is sent when a step fails. It performs no I/O:
//! a caller feeds it plain values and carries out the actions it returns.

pub mod model;
pub mod text;
pub mod transform;
pub mod routes;
pub mod mirror;
pub mod laws;

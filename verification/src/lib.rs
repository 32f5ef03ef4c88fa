//! Dispatch core of an event-driven command router for a chat platform:
//! the ordered handler-unit registry and its fan-out, the per-message
//! prefix-resolution and command-line parsing, the per-guild prefix-record
//! logic, and the bounded buffer of latency samples that a status endpoint
//! reads.
//!
//! Everything here decides and computes on plain values; the transport
//! connection, persistent storage, and the status endpoint perform the
//! decided actions and feed events back in.

pub mod base;
pub mod cogs;
pub mod digits;
pub mod events;
pub mod latency;
pub mod prefixes;
pub mod slash;
pub mod text;

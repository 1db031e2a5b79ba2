//! Capture-and-aggregation engine of a live network traffic monitor.
//!
//! The engine parses raw link-layer frames, classifies each packet by
//! transport and application protocol, filters it, and aggregates
//! per-connection and global traffic counters.  A run-state machine
//! governs the capture loop, and a report module renders the aggregate
//! counters as text.  Everything here is pure logic on plain values;
//! the live capture handle and the user interface live outside.

pub mod engine;
pub mod filters;
pub mod packet;
pub mod protocol;
pub mod report;
pub mod runstate;
pub mod style;
pub mod traffic;

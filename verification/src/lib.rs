//! Lifecycle state for a client's connection to a background daemon, plus an
//! independent background-registration lifecycle. Each state container pairs a
//! lifecycle variant with a status descriptor (label, color class, animation
//! cadence) that is recomputed atomically on every transition, so a reader
//! never observes a lifecycle value next to a stale descriptor.

pub mod descriptor;
pub mod state;

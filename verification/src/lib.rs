//! A safety-critical capability control core for an autonomous runtime.
//!
//! The crate decides whether a time-bounded capability ("lease") over a
//! sensitive resource class may be granted, tracks and expires granted
//! leases, evaluates admission policies, and provides a global emergency
//! stop that pre-empts all granted capabilities and halts further grants.
//!
//! Time enters the library as data: every operation that depends on the
//! clock takes the current reading of a monotonic clock, in milliseconds,
//! as an explicit argument. The surrounding runtime reads the clock and
//! drives the supervisory loops.

pub mod control_core;
mod ids;
pub mod kill_switch;
pub mod lease_manager;
pub mod policy_engine;
mod seq_util;
mod text;

//! Deliberate faults and a clock that stands still, for tests and for the
//! failure lab.

pub mod clock;
pub mod fault;

pub use crate::test_support::clock::FakeClock;
pub use crate::test_support::fault::{FaultConfig, FaultInjector, FaultTriggered};

//! Power-on detection for a networked television.
//!
//! The crate holds the decisions of a watcher that waits for a device to go
//! from unreachable to reachable and then launches an application on it. All
//! network and process work is left to the caller: the caller performs what an
//! [`orchestrator::Action`] asks for and reports back with an
//! [`orchestrator::Event`]. Every function here is verified against its
//! contract, and the laws that span several steps are proved in [`laws`].

pub mod addr;
pub mod config;
pub mod laws;
pub mod multicast;
pub mod orchestrator;
pub mod prober;
pub mod span;
pub mod trigger;

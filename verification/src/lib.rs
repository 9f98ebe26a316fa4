//! The decisions of CUDA graph capture, replay and in-place update, verified.
//!
//! Each operation on a captured graph is a small state machine: it names the
//! next driver call it needs ([`driver::DriverCall`]), takes the driver's reply
//! ([`driver::DriverReply`]) and decides what comes next, until it holds its
//! result. A runner outside the library makes the calls.
use vstd::prelude::*;

pub mod call;
pub mod capture;
pub mod driver;
pub mod graph;
pub mod node_types;
pub mod protocol;
pub mod recapture;
pub mod teardown;

verus! {
}

//! Verified core of a source-routed packet-switching node ("drone").
//!
//! A drone forwards source-routed packets between neighbor nodes connected by
//! in-process channels, applies a stochastic drop to message fragments,
//! answers network-discovery floods, and obeys commands from a simulation
//! controller, including a graceful crash.  The state machine itself lives
//! here and is verified; the blocking event loop that feeds it runs outside.

pub mod messages;
pub mod drone;
pub mod neighbors;
pub mod packet_send;

pub use drone::RustezeDrone;

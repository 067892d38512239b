//! Verified core of a terminal-session time tracker.
//!
//! The library models the durable store of a session time tracker: which
//! sessions are currently attached (and since when), and how many seconds
//! each session accumulated on each calendar day.  All state transitions
//! (attach, rollup on detach) and aggregations (today's seconds, trailing
//! week hours) are verified here; reading and writing the actual database
//! is left to the surrounding application.

pub mod laws;
pub mod model;
pub mod session_tracker;

pub use session_tracker::SessionTracker;

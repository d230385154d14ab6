//! Verified bookkeeping core of a treasury-guard agent.
//!
//! Three record types, each owned by a single authority identity:
//! a treasury balance snapshot, a fixed-capacity audit log of agent
//! decisions (a ring buffer with an unbounded lifetime counter), and a
//! risk-threshold configuration. Every mutation is attributable to
//! exactly one owning identity; rejected operations leave the records
//! untouched.
//!
//! The hosting environment verifies signatures and supplies the clock;
//! this crate holds the durable bookkeeping and its protection rules.

pub mod audit_log;
pub mod error;
pub mod identity;
pub mod risk_config;
pub mod store;
pub mod treasury;

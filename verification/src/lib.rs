//! The core of a command line radio for Graphcast.
//!
//! The radio does two things. It gossips, with a bounded number of retries,
//! the intent to upgrade a subgraph to a new deployment; and it asks the
//! indexers that serve the subgraph how far they have come with the new
//! deployment, and sums their answers up.
//!
//! This crate holds the rules of both: which payload each attempt sends and
//! when a run of attempts ends ([`operator`]), which requests are made and
//! how replies are read and classified ([`query`]), and how results become
//! a summary ([`operator::operation`]). Requests and replies are JSON
//! documents ([`json`]); block numbers travel as decimal text ([`decimal`]).
//! Reaching the network, the command line and the log are left to the
//! program built around this crate.

pub mod config;
pub mod decimal;
pub mod json;
pub mod messages;
pub mod operator;
pub mod query;

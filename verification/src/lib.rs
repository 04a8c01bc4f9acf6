//! Merging labeled pull-request branches into a destination branch.
//!
//! Given a label and a destination branch name, the tool discovers the open
//! pull requests carrying that label, then fetches, checks out and merges
//! each matching branch in turn, halting at the first unresolved conflict.
//! This crate holds the decision logic of that run: validating the inputs,
//! extracting branch names from the remote's reply, and the state machine
//! that drives the sequence of git operations with fail-fast semantics.
//! The surrounding binary performs the actual git and network calls and
//! feeds each outcome back into the state machine.

pub mod config;
pub mod orchestrator;
pub mod resolver;

//! A multi-signatory governance and treasury engine for a shared pool.
//!
//! Signatories raise proposals (add or remove members, change the quorum,
//! change the proposal time limit, move funds), vote on them, and a proposal
//! executes on the vote that brings it to quorum. When the group goes quiet,
//! a dormancy policy lowers the quorum step by step so that lost keys cannot
//! lock the pool for ever.
//!
//! Every operation is a function from the current state and its inputs to a
//! new state or an error. An error never changes the state. Time is always
//! handed in by the caller, and moving tokens is left to the caller: the
//! library returns the transfers to make.

pub mod identity;
pub mod signatory;
pub mod proposal;
pub mod error;
pub mod treasury;
pub mod model;
pub mod preservation;
pub mod state;
pub mod general;
pub mod project;
pub mod transfer;
pub mod laws;

pub use identity::Identity;

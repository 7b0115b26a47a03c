//! Query lifecycle and transport addressing for a three-party helper node.
//!
//! The library holds the decisions of a helper: who plays which role in a
//! query, how a query moves through its lifecycle, how peer messages are
//! addressed, and how a secure multiplication combines local and received
//! terms. Waiting on the network is left to the caller, which hands the
//! outcome of each exchange back to the functions here.

pub mod identity;
pub mod route;
pub mod gateway;
pub mod query;
pub mod state;
pub mod processor;
pub mod mul;
pub mod transport;

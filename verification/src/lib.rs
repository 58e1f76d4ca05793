//! Client for a remote, asynchronous coding-agent service.
//!
//! A submission creates or resumes a remote session, then polls it for
//! activity records, renders each record once and oldest first, and ends on
//! a completion signal or after a fixed number of polls. The network and the
//! clock stay with the caller: every function here maps a state and an
//! answer of the service to the next state and the next request.
//!
//! The crate also holds the functions that the assistant offers to a model
//! by name: their declarations, how a call is read, and what each call
//! answers once the caller has done its work.

pub mod activity;
pub mod builtin;
pub mod client;
pub mod error;
pub mod json;
pub mod laws;
pub mod poll;
pub mod registry;
pub mod request;
pub mod text;

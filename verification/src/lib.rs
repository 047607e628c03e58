//! A typed client core for the Pterodactyl panel's application API.
//!
//! The crate holds everything about a call that can be decided without
//! touching the network: how a request is addressed and authenticated, how a
//! reply is judged, which error a failing status becomes, and how the quota
//! that the panel reports is tracked.  Dispatching a prepared [`http::Request`]
//! and reading the reply is left to the caller.

pub mod application;
pub mod error;
pub mod http;
pub mod query;
pub mod text;

pub use error::Error;

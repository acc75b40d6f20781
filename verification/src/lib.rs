//! A typed client core for the Kafka Connect REST API.
//!
//! The verified library holds everything that decides or computes:
//! the data model of the API ([`models`]), the closed error taxonomy
//! ([`error`]), query-string construction ([`query`]), Basic-Auth header
//! construction ([`auth`]), classification of HTTP responses into typed
//! outcomes ([`classify`]), the transient-failure retry policy ([`retry`]),
//! and the trial decoding of the two connector offset shapes ([`offsets`],
//! over the JSON model in [`json`]).
//!
//! The HTTP transport itself is not part of the library: a caller performs
//! the exchanges and feeds status codes and decoded bodies to these
//! functions.

pub mod auth;
pub mod classify;
pub mod error;
pub mod json;
pub mod models;
pub mod offsets;
pub mod query;
pub mod retry;

pub use error::ConnectError;
pub use error::ErrorMessage;


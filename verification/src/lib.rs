//! A transport-free client for a telephone-call two-factor-authentication
//! service.
//!
//! The library decides what is sent to the service and what a reply means;
//! it never touches the network itself. Every operation yields an
//! [`exchange::Exchange`]: the request to put on the wire together with the
//! status that answers it with success. The caller performs the round trip
//! and hands the outcome back to [`exchange::Exchange::finish`].
//!
//! A client comes into being in two steps. [`client::Client::new`] looks at
//! the credentials and opens a [`client::Handshake`]; the outcome of its
//! round trip, handed to [`client::Handshake::finish`], gives the client
//! that holds the service's token.

pub mod client;
pub mod error;
pub mod exchange;
pub mod json;
pub mod laws;
pub mod request;

pub use crate::client::{Client, Handshake};
pub use crate::error::ClientError;
pub use crate::exchange::Exchange;
pub use crate::request::{Method, Reply, Request};

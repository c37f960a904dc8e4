//! A client library for Tide Disco applications.
//!
//! The library decides what is sent, what is made of the answers and what comes next; sockets,
//! clocks and serialization formats are driven from outside, one action and one event at a time.
//!
//! A [`Client`] makes a [`Request`] or a [`SocketRequest`] of a route. Sending, connecting and
//! waiting begin with a method of theirs, and go on with the state machine that it returns.
pub mod client;
pub mod error;
pub mod http;
pub mod laws;
pub mod poll;
pub mod request;
pub mod socket;
pub mod text;
pub mod time;
pub mod url;

pub use client::Client;
pub use error::Error;
pub use http::{Method, StatusCode};
pub use request::Request;
pub use socket::SocketRequest;
pub use url::Address;

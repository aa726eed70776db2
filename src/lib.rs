//! A client library for a real-time chat service: session state, wire encoding,
//! reconnection policy and the data model, each function with its contract.

pub mod client;
pub mod error;
pub mod gateway;
pub mod http;
pub mod models;

//! A typed, transport-free client for the REST interface of a smart-lighting
//! controller on the local network.
//!
//! The library decides what goes over the wire and what comes back: it builds
//! each request from a typed call and turns each response into a typed value
//! or into one unified error. Sending the request is left to the caller.

pub mod address;
pub mod client;
pub mod error;
pub mod http_client;
pub mod json;
pub mod models;
pub mod wire;

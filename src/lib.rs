//! A typed client for a remote module registry: session state, request
//! construction, and decoding of the registry's JSON response envelope.
//!
//! The library never touches the network. It builds transport-ready request
//! values and turns the raw bytes that a transport hands back into typed
//! results or errors.
pub mod client;
pub mod email;
pub mod error;
pub mod json;
pub mod reply;

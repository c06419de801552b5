//! A runtime for the Model Context Protocol: JSON-RPC envelopes, the
//! request/response dispatcher, client and server sessions and the tool
//! registry, with their behaviour stated and proved.
pub mod json;
pub mod client;
pub mod transport;
pub mod types;
pub mod protocol;
pub mod registry;
pub mod tools;
pub mod server;
pub mod sse;
pub mod stdio;


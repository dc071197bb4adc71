//! The decision logic of a command-line client for a node's RPC interface:
//! endpoint validation, choice of a peer's IPv4 address, the request for each
//! operation, and the sequence of steps from connection to rendered result.

pub mod dispatch;
pub mod endpoint;
pub mod hex;
pub mod peer;
pub mod text;

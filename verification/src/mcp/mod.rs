//! The MCP front end: bearer authentication, sessions, JSON-RPC methods and
//! the tool catalogue.
pub mod auth;
pub mod jsonrpc;
pub mod session;
pub mod tools;

//! A line-oriented JSON-RPC 2.0 engine for a small server of tools and
//! resources.
//!
//! The engine does no input or output. A caller reads a line and hands it to
//! [`server::MCPServer::handle_line`]; the step that comes back holds the
//! response, which [`codec::encode_response`] turns into the line to send.
//!
//! - [`json`]: JSON values and their mathematical model.
//! - [`text`]: JSON text, read and written by `serde_json`.
//! - [`codec`]: requests, responses, and their forms on the wire.
//! - [`registry`]: the descriptors by which tools and resources are listed.
//! - [`tools`], [`resources`]: what the server offers.
//! - [`server`]: the dispatcher, and the laws that hold of it.

pub mod codec;
pub mod json;
pub mod registry;
pub mod resources;
pub mod server;
pub mod text;
pub mod tools;

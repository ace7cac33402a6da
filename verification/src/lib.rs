//! The protocol engine of a small capability server.
//!
//! The server speaks JSON-RPC over lines of text: every line that comes in
//! holds one message, and every response goes out as one line. A client can
//! list and call tools, list and read resources, and list and get prompts.
//!
//! This crate is the part that decides. It reads a line, tells a request
//! from a notification, routes the message to its handler and frames the
//! response. It does no input or output of its own: where a capability needs
//! the note store, the load of the machine or the files on disk, the engine
//! hands out a [`capability::Call`] and takes back a
//! [`capability::Answer`]. The loop around it is two calls:
//! [`server::handle_line`] for a line that was read, and
//! [`server::finish_line`] once a call has been answered.
//!
//! Every function here is verified against a contract over the mathematical
//! view of its arguments. Reading and writing JSON text is left to
//! `serde_json` and is taken on trust; the module [`json`] says exactly what
//! is assumed of it. What holds of the engine for every message, such as
//! that a request gets exactly one response with its own id and a
//! notification gets none, is stated and proved in [`laws`].

pub mod capability;
pub mod db;
pub mod json;
pub mod laws;
pub mod mcp;
pub mod prompts;
pub mod resources;
pub mod server;
pub mod text;
pub mod tools;

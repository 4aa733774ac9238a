//! Verified core of an MCP (Model Context Protocol) server: JSON-RPC message
//! routing, per-session protocol state, HTTP session handling and request
//! validation.

pub mod text;
pub mod clock;
pub mod json;
pub mod error;
pub mod protocol;
pub mod protocol_impl;
pub mod message;
pub mod handler;
pub mod engine;
pub mod http;
pub mod http_handler;
pub mod logging;
pub mod handlers;
pub mod content_types;
pub mod response;
pub mod limits;
pub mod health;
pub mod framework;

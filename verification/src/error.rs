//! Error types of the MCP server and their JSON-RPC encoding.

use vstd::prelude::*;
use crate::json::{Json, JsonV, obj2, obj3};
use crate::text::{append_str, copy_str, dec_text, push_decimal};

verus! {

broadcast use vstd::string::group_string_axioms;

/// Errors of the MCP server.
///
/// `Io` and `Json` hold the display text of the I/O or JSON error they stand for.
#[derive(Debug)]
pub enum McpError {
    UnknownMethod(String),
    InvalidParams(String),
    NotInitialized,
    AlreadyInitialized,
    UnknownTool(String),
    UnknownResource(String),
    UnknownPrompt(String),
    InvalidPath(String),
    PermissionDenied(String),
    TooManySessions(usize),
    MessageTooLarge(usize, usize),
    RateLimitExceeded,
    Io(String),
    Json(String),
    Internal(String),
}

/// Result type of the library's fallible operations.
pub type McpResult<T> = Result<T, McpError>;

/// The JSON-RPC error code of an error.
pub open spec fn error_code_of(e: McpError) -> int {
    match e {
        McpError::UnknownMethod(_) => -32601,
        McpError::InvalidParams(_) => -32602,
        McpError::Json(_) => -32700,
        McpError::NotInitialized => -32002,
        McpError::UnknownTool(_) | McpError::UnknownResource(_) | McpError::UnknownPrompt(_) => -32601,
        McpError::TooManySessions(_) | McpError::MessageTooLarge(_, _)
        | McpError::RateLimitExceeded => -32000,
        McpError::InvalidPath(_) | McpError::PermissionDenied(_) => -32003,
        _ => -32603,
    }
}

/// The display text of an error.
pub open spec fn error_message_of(e: McpError) -> Seq<char> {
    match e {
        McpError::UnknownMethod(s) => "Method not found: "@ + s@,
        McpError::InvalidParams(s) => "Invalid parameters: "@ + s@,
        McpError::NotInitialized => "Not initialized"@,
        McpError::AlreadyInitialized => "Already initialized"@,
        McpError::UnknownTool(s) => "Tool not found: "@ + s@,
        McpError::UnknownResource(s) => "Resource not found: "@ + s@,
        McpError::UnknownPrompt(s) => "Prompt not found: "@ + s@,
        McpError::InvalidPath(s) => "Invalid path: "@ + s@,
        McpError::PermissionDenied(s) => "Permission denied: "@ + s@,
        McpError::TooManySessions(n) => "Too many sessions (max: "@ + dec_text(n as nat) + ")"@,
        McpError::MessageTooLarge(a, b) => "Message too large: "@ + dec_text(a as nat)
            + " bytes (max: "@ + dec_text(b as nat) + ")"@,
        McpError::RateLimitExceeded => "Rate limit exceeded"@,
        McpError::Io(s) => "IO error: "@ + s@,
        McpError::Json(s) => "JSON error: "@ + s@,
        McpError::Internal(s) => "Internal error: "@ + s@,
    }
}

/// A JSON-RPC error response: `{"jsonrpc": "2.0", "error": {"code", "message"}, "id"}`.
pub open spec fn json_rpc_error_view(code: int, message: Seq<char>, id: JsonV) -> JsonV {
    JsonV::Object(
        seq![
            ("jsonrpc"@, JsonV::Str("2.0"@)),
            ("error"@, JsonV::Object(seq![("code"@, JsonV::Int(code)), ("message"@, JsonV::Str(message))])),
            ("id"@, id),
        ],
    )
}

/// The view of an optional id, `null` when absent.
pub open spec fn id_view(id: Option<Json>) -> JsonV {
    match id {
        Some(v) => v@,
        None => JsonV::Null,
    }
}

fn prefixed(prefix: &str, s: &str) -> (r: String)
    ensures
        r@ == prefix@ + s@,
{
    let mut r = copy_str(prefix);
    append_str(&mut r, s);
    r
}

/// A JSON-RPC error object built from a code, a message and an id.
pub fn json_rpc_error(code: i64, message: String, id: Json) -> (r: Json)
    ensures
        r@ == json_rpc_error_view(code as int, message@, id@),
{
    let err = obj2("code", Json::Int(code), "message", Json::Str(message));
    obj3("jsonrpc", Json::string("2.0"), "error", err, "id", id)
}

impl McpError {
    /// The JSON-RPC error code of this error.
    pub fn error_code(&self) -> (r: i32)
        ensures
            r as int == error_code_of(*self),
    {
        match self {
            McpError::UnknownMethod(_) => -32601,
            McpError::InvalidParams(_) => -32602,
            McpError::Json(_) => -32700,
            McpError::NotInitialized => -32002,
            McpError::UnknownTool(_) | McpError::UnknownResource(_) | McpError::UnknownPrompt(_) => -32601,
            McpError::TooManySessions(_) | McpError::MessageTooLarge(_, _)
            | McpError::RateLimitExceeded => -32000,
            McpError::InvalidPath(_) | McpError::PermissionDenied(_) => -32003,
            _ => -32603,
        }
    }

    /// The display text of this error.
    pub fn message(&self) -> (r: String)
        ensures
            r@ == error_message_of(*self),
    {
        match self {
            McpError::UnknownMethod(s) => prefixed("Method not found: ", s.as_str()),
            McpError::InvalidParams(s) => prefixed("Invalid parameters: ", s.as_str()),
            McpError::NotInitialized => copy_str("Not initialized"),
            McpError::AlreadyInitialized => copy_str("Already initialized"),
            McpError::UnknownTool(s) => prefixed("Tool not found: ", s.as_str()),
            McpError::UnknownResource(s) => prefixed("Resource not found: ", s.as_str()),
            McpError::UnknownPrompt(s) => prefixed("Prompt not found: ", s.as_str()),
            McpError::InvalidPath(s) => prefixed("Invalid path: ", s.as_str()),
            McpError::PermissionDenied(s) => prefixed("Permission denied: ", s.as_str()),
            McpError::TooManySessions(n) => {
                let mut r = copy_str("Too many sessions (max: ");
                push_decimal(&mut r, *n as u128);
                append_str(&mut r, ")");
                r
            },
            McpError::MessageTooLarge(a, b) => {
                let mut r = copy_str("Message too large: ");
                push_decimal(&mut r, *a as u128);
                append_str(&mut r, " bytes (max: ");
                push_decimal(&mut r, *b as u128);
                append_str(&mut r, ")");
                r
            },
            McpError::RateLimitExceeded => copy_str("Rate limit exceeded"),
            McpError::Io(s) => prefixed("IO error: ", s.as_str()),
            McpError::Json(s) => prefixed("JSON error: ", s.as_str()),
            McpError::Internal(s) => prefixed("Internal error: ", s.as_str()),
        }
    }

    /// The JSON-RPC error response for this error, answering the request `id`.
    pub fn to_json_rpc_error(&self, id: Option<Json>) -> (r: Json)
        ensures
            r@ == json_rpc_error_view(error_code_of(*self), error_message_of(*self), id_view(id)),
    {
        let code = self.error_code();
        let msg = self.message();
        let idv = match id {
            Some(v) => v,
            None => Json::Null,
        };
        json_rpc_error(code as i64, msg, idv)
    }
}

/// Errors of the transport layer.
#[derive(Debug)]
pub enum TransportError {
    WebSocket(String),
    Http(String),
    ConnectionClosed,
}

/// Errors of protocol handling.
#[derive(Debug)]
pub enum ProtocolError {
    InvalidVersion(String),
    MessageTooLarge(usize),
    InvalidFormat,
}

/// The display text of a transport error.
pub open spec fn transport_message_of(e: TransportError) -> Seq<char> {
    match e {
        TransportError::WebSocket(s) => "WebSocket error: "@ + s@,
        TransportError::Http(s) => "HTTP error: "@ + s@,
        TransportError::ConnectionClosed => "Connection closed"@,
    }
}

/// The display text of a protocol error.
pub open spec fn protocol_message_of(e: ProtocolError) -> Seq<char> {
    match e {
        ProtocolError::InvalidVersion(s) => "Invalid protocol version: "@ + s@,
        ProtocolError::MessageTooLarge(n) => "Message too large: "@ + dec_text(n as nat) + " bytes"@,
        ProtocolError::InvalidFormat => "Invalid message format"@,
    }
}

impl TransportError {
    /// The display text of this error.
    pub fn message(&self) -> (r: String)
        ensures
            r@ == transport_message_of(*self),
    {
        match self {
            TransportError::WebSocket(s) => prefixed("WebSocket error: ", s.as_str()),
            TransportError::Http(s) => prefixed("HTTP error: ", s.as_str()),
            TransportError::ConnectionClosed => copy_str("Connection closed"),
        }
    }
}

impl ProtocolError {
    /// The display text of this error.
    pub fn message(&self) -> (r: String)
        ensures
            r@ == protocol_message_of(*self),
    {
        match self {
            ProtocolError::InvalidVersion(s) => prefixed("Invalid protocol version: ", s.as_str()),
            ProtocolError::MessageTooLarge(n) => {
                let mut r = copy_str("Message too large: ");
                push_decimal(&mut r, *n as u128);
                append_str(&mut r, " bytes");
                r
            },
            ProtocolError::InvalidFormat => copy_str("Invalid message format"),
        }
    }
}

/// The size limit reported when a protocol error says a message is too large (2 MiB).
pub const PROTOCOL_MESSAGE_LIMIT: usize = 2097152;

impl McpError {
    /// The server error that a transport error becomes: an internal error with its text.
    pub fn from_transport(err: TransportError) -> (r: McpError)
        ensures
            r matches McpError::Internal(s) && s@ == transport_message_of(err),
    {
        McpError::Internal(err.message())
    }

    /// The server error that a protocol error becomes: a too-large message keeps its size
    /// and reports the 2 MiB limit; any other error becomes an internal error with its text.
    pub fn from_protocol(err: ProtocolError) -> (r: McpError)
        ensures
            (err matches ProtocolError::MessageTooLarge(n) ==> r == McpError::MessageTooLarge(
                n,
                PROTOCOL_MESSAGE_LIMIT,
            )),
            !(err is MessageTooLarge) ==> (r matches McpError::Internal(s) && s@
                == protocol_message_of(err)),
    {
        match err {
            ProtocolError::MessageTooLarge(size) => McpError::MessageTooLarge(size, PROTOCOL_MESSAGE_LIMIT),
            _ => McpError::Internal(err.message()),
        }
    }
}

} // verus!

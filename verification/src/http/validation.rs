//! Checks of an HTTP JSON-RPC request before it is handled.

use vstd::prelude::*;
use crate::error::{McpError, McpResult};
use crate::json::{Json, JsonV, opt_chars};
use crate::text::{append_str, contains, contains_str, copy_str, str_eq};

verus! {

broadcast use vstd::string::group_string_axioms;

/// A request that passed the checks, with what was read off it.
#[derive(Debug)]
pub struct ValidatedRequest {
    pub message: Json,
    pub method: String,
    pub message_id: Json,
    pub has_params: bool,
    pub has_meta: bool,
    pub has_progress_token: bool,
    pub request_size: usize,
}

/// What a validated request records, as values.
pub struct ValidatedV {
    pub message: JsonV,
    pub method: Seq<char>,
    pub message_id: JsonV,
    pub has_params: bool,
    pub has_meta: bool,
    pub has_progress_token: bool,
    pub request_size: nat,
}

impl View for ValidatedRequest {
    type V = ValidatedV;

    open spec fn view(&self) -> ValidatedV {
        ValidatedV {
            message: self.message@,
            method: self.method@,
            message_id: self.message_id@,
            has_params: self.has_params,
            has_meta: self.has_meta,
            has_progress_token: self.has_progress_token,
            request_size: self.request_size as nat,
        }
    }
}

/// The `_meta` member of a request's parameters.
pub open spec fn meta_of(m: JsonV) -> Option<JsonV> {
    match m.get("params"@) {
        Some(p) => p.get("_meta"@),
        None => None,
    }
}

/// The outcome of checking a request of `request_size` bytes with content type
/// `content_type`: what it records, or the text of the invalid-parameters error.
pub open spec fn validate_view(m: JsonV, content_type: Seq<char>, request_size: nat) -> Result<ValidatedV, Seq<char>> {
    if !contains(content_type, "application/json"@) {
        Err("Invalid Content-Type: "@ + content_type + ". Expected application/json"@)
    } else {
        match m.get_str("jsonrpc"@) {
            None => Err("Missing or invalid 'jsonrpc' field"@),
            Some(v) => if v != "2.0"@ {
                Err("Invalid jsonrpc version: "@ + v + ". Expected 2.0"@)
            } else {
                match m.get_str("method"@) {
                    None => Err("Missing or invalid 'method' field"@),
                    Some(method) => Ok(
                        ValidatedV {
                            message: m,
                            method,
                            message_id: m.index("id"@),
                            has_params: m.has("params"@),
                            has_meta: meta_of(m) is Some,
                            has_progress_token: match meta_of(m) {
                                Some(meta) => meta.has("progressToken"@),
                                None => false,
                            },
                            request_size,
                        },
                    ),
                }
            },
        }
    }
}

/// A request passes the checks exactly when its content type names JSON and it is
/// JSON-RPC 2.0 with a method; it is then recorded as it was received, with its method,
/// its id (`null` when it has none), whether it has parameters, whether they carry
/// `_meta` and a progress token in it, and its size.
pub proof fn lemma_validated_request_is_received(m: JsonV, content_type: Seq<char>, request_size: nat)
    ensures
        validate_view(m, content_type, request_size) is Ok <==> (contains(content_type, "application/json"@)
            && m.get_str("jsonrpc"@) == Some("2.0"@) && m.get_str("method"@) is Some),
        validate_view(m, content_type, request_size) matches Ok(v) ==> {
            &&& v.message == m
            &&& Some(v.method) == m.get_str("method"@)
            &&& v.message_id == m.index("id"@)
            &&& v.has_params == m.has("params"@)
            &&& v.has_meta == m.index("params"@).has("_meta"@)
            &&& v.has_progress_token == m.index("params"@).index("_meta"@).has("progressToken"@)
            &&& v.request_size == request_size
        },
{
}

/// Checks a request: its content type must be JSON, and it must be JSON-RPC 2.0 with a
/// method. `request_size` is the length of the request's JSON text.
pub fn validate_request(message: Json, content_type: &str, request_size: usize) -> (r: McpResult<ValidatedRequest>)
    ensures
        match validate_view(message@, content_type@, request_size as nat) {
            Ok(v) => r matches Ok(x) && x@ == v,
            Err(text) => (r matches Err(McpError::InvalidParams(t)) && t@ == text),
        },
{
    if !contains_str(content_type, "application/json") {
        let mut msg = copy_str("Invalid Content-Type: ");
        append_str(&mut msg, content_type);
        append_str(&mut msg, ". Expected application/json");
        return Err(McpError::InvalidParams(msg));
    }
    let method = {
        let jsonrpc = match message.get_str("jsonrpc") {
            Some(j) => j,
            None => {
                return Err(McpError::InvalidParams(copy_str("Missing or invalid 'jsonrpc' field")));
            },
        };
        if !str_eq(jsonrpc.as_str(), "2.0") {
            let mut msg = copy_str("Invalid jsonrpc version: ");
            append_str(&mut msg, jsonrpc.as_str());
            append_str(&mut msg, ". Expected 2.0");
            return Err(McpError::InvalidParams(msg));
        }
        match message.get_str("method") {
            Some(m) => copy_str(m.as_str()),
            None => {
                return Err(McpError::InvalidParams(copy_str("Missing or invalid 'method' field")));
            },
        }
    };
    let message_id = message.index_copy("id");
    let has_params = message.has("params");
    let (has_meta, has_progress_token) = match message.get("params") {
        Some(p) => match p.get("_meta") {
            Some(meta) => (true, meta.has("progressToken")),
            None => (false, false),
        },
        None => (false, false),
    };
    Ok(ValidatedRequest { message, method, message_id, has_params, has_meta, has_progress_token, request_size })
}

/// The content type of a request: the header's value, `application/json` when absent.
pub fn extract_content_type(content_type: Option<String>) -> (r: String)
    ensures
        r@ == match opt_chars(content_type) {
            Some(c) => c,
            None => "application/json"@,
        },
{
    match content_type {
        Some(c) => c,
        None => copy_str("application/json"),
    }
}

} // verus!

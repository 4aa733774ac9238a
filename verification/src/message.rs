//! What a raw JSON-RPC message is, by its version and method, before its parameters are
//! decoded.

use vstd::prelude::*;
use crate::error::{McpError, McpResult};
use crate::text::{chars_of, append_str, copy_str, starts_with, starts_with_str, str_eq};

verus! {

broadcast use vstd::string::group_string_axioms;

/// The kind of a message: which method it calls, or that it is a notification.
#[derive(Debug, Clone, Copy, PartialEq, Eq, Structural)]
pub enum MessageKind {
    Initialize,
    ToolsList,
    ToolsCall,
    ResourcesList,
    ResourcesRead,
    PromptsList,
    PromptsGet,
    Notification,
}

/// Whether a method needs parameters.
pub open spec fn needs_params(method: Seq<char>) -> bool {
    method == "initialize"@ || method == "tools/call"@ || method == "resources/read"@ || method == "prompts/get"@
}

/// The kind of a message with JSON-RPC version `jsonrpc` calling `method`, or the error
/// that refuses it: a version other than `2.0`, an empty method, missing parameters of a
/// method that needs them, or an unknown method. Results are `Ok(kind)` or
/// `Err((is_unknown_method, text))`, where the text is the invalid-parameters text or
/// the unknown method's name.
pub open spec fn classify_view(jsonrpc: Seq<char>, method: Seq<char>, has_params: bool) -> Result<MessageKind, (bool, Seq<char>)> {
    if jsonrpc != "2.0"@ {
        Err((false, "Invalid jsonrpc version: "@ + jsonrpc))
    } else if method.len() == 0 {
        Err((false, "Empty method name"@))
    } else if needs_params(method) && !has_params {
        Err((false, "Missing params for "@ + method))
    } else if method == "initialize"@ {
        Ok(MessageKind::Initialize)
    } else if method == "tools/list"@ {
        Ok(MessageKind::ToolsList)
    } else if method == "tools/call"@ {
        Ok(MessageKind::ToolsCall)
    } else if method == "resources/list"@ {
        Ok(MessageKind::ResourcesList)
    } else if method == "resources/read"@ {
        Ok(MessageKind::ResourcesRead)
    } else if method == "prompts/list"@ {
        Ok(MessageKind::PromptsList)
    } else if method == "prompts/get"@ {
        Ok(MessageKind::PromptsGet)
    } else if starts_with(method, "notifications/"@) {
        Ok(MessageKind::Notification)
    } else {
        Err((true, method))
    }
}

/// The value of a classification result.
pub open spec fn classified(r: McpResult<MessageKind>) -> Result<MessageKind, (bool, Seq<char>)> {
    match r {
        Ok(k) => Ok(k),
        Err(McpError::UnknownMethod(m)) => Err((true, m@)),
        Err(McpError::InvalidParams(t)) => Err((false, t@)),
        Err(_) => Err((false, Seq::empty())),
    }
}

/// Classifies a message by its JSON-RPC version, its method and whether it has
/// parameters; the parameters themselves are decoded by the caller.
pub fn classify_message(jsonrpc: &str, method: &str, has_params: bool) -> (r: McpResult<MessageKind>)
    ensures
        classified(r) == classify_view(jsonrpc@, method@, has_params),
        r matches Err(e) ==> (e is UnknownMethod || e is InvalidParams),
{
    if !str_eq(jsonrpc, "2.0") {
        let mut t = copy_str("Invalid jsonrpc version: ");
        append_str(&mut t, jsonrpc);
        return Err(McpError::InvalidParams(t));
    }
    if chars_of(method).len() == 0 {
        return Err(McpError::InvalidParams(copy_str("Empty method name")));
    }
    let needs = str_eq(method, "initialize") || str_eq(method, "tools/call") || str_eq(method, "resources/read")
        || str_eq(method, "prompts/get");
    if needs && !has_params {
        let mut t = copy_str("Missing params for ");
        append_str(&mut t, method);
        return Err(McpError::InvalidParams(t));
    }
    if str_eq(method, "initialize") {
        Ok(MessageKind::Initialize)
    } else if str_eq(method, "tools/list") {
        Ok(MessageKind::ToolsList)
    } else if str_eq(method, "tools/call") {
        Ok(MessageKind::ToolsCall)
    } else if str_eq(method, "resources/list") {
        Ok(MessageKind::ResourcesList)
    } else if str_eq(method, "resources/read") {
        Ok(MessageKind::ResourcesRead)
    } else if str_eq(method, "prompts/list") {
        Ok(MessageKind::PromptsList)
    } else if str_eq(method, "prompts/get") {
        Ok(MessageKind::PromptsGet)
    } else if starts_with_str(method, "notifications/") {
        Ok(MessageKind::Notification)
    } else {
        Err(McpError::UnknownMethod(copy_str(method)))
    }
}

} // verus!

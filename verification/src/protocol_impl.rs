//! The built-in protocol handler of one session: JSON-RPC validation,
//! initialization and protocol-version negotiation, and dispatch.
//!
//! Handling a message is a step: it either replies at once, or asks the
//! caller to list or run the built-in tools and then finishes with
//! [`McpProtocolHandlerImpl::finish_tools_list`] or
//! [`McpProtocolHandlerImpl::finish_tool_call`].

use vstd::prelude::*;
use crate::error::{McpError, McpResult, json_rpc_error_view};
use crate::json::{member, lemma_member_third, Json, JsonV, opt_view, opt_json, opt_chars, obj1, obj2, obj3, empty_object};
use crate::protocol::{McpProtocol, success_view, initialize_view, default_protocol_version, package_version};
use crate::text::{copy_str, str_eq, append_str, contains_str, contains};

verus! {

broadcast use vstd::string::group_string_axioms;

/// The protocol state of one session.
pub struct HandlerState {
    pub initialized: bool,
    pub client_info: Option<JsonV>,
    pub protocol_version: Option<Seq<char>>,
}

/// What handling one message produced.
pub enum BuiltinOutcome {
    /// The message was refused before dispatch, with this error code and text.
    Failed(int, Seq<char>),
    /// The reply to send.
    Reply(JsonV),
    /// The built-in tool list for this protocol version is needed to answer request `id`.
    ListTools(Option<JsonV>, Option<Seq<char>>),
    /// The built-in tool with this name must run on these arguments to answer request `id`.
    CallTool(Option<JsonV>, Seq<char>, JsonV),
}

/// The result of one message step.
pub enum BuiltinStep {
    /// Handling is finished.
    Reply(McpResult<Json>),
    /// Finish with the built-in tool list for `protocol_version`.
    ListTools { id: Option<Json>, protocol_version: Option<String> },
    /// Finish with the outcome of running tool `name` on `arguments`.
    CallTool { id: Option<Json>, name: String, arguments: Json },
}

impl View for BuiltinStep {
    type V = BuiltinOutcome;

    open spec fn view(&self) -> BuiltinOutcome {
        match *self {
            BuiltinStep::Reply(Ok(j)) => BuiltinOutcome::Reply(j@),
            BuiltinStep::Reply(Err(e)) => BuiltinOutcome::Failed(
                crate::error::error_code_of(e),
                crate::error::error_message_of(e),
            ),
            BuiltinStep::ListTools { id, protocol_version } => BuiltinOutcome::ListTools(
                opt_json(id),
                opt_chars(protocol_version),
            ),
            BuiltinStep::CallTool { id, name, arguments } => BuiltinOutcome::CallTool(
                opt_json(id),
                name@,
                arguments@,
            ),
        }
    }
}

/// The protocol versions a client may ask for.
pub open spec fn supported_version(v: Seq<char>) -> bool {
    v == "2025-03-26"@ || v == "2025-06-18"@
}

/// The reply carrying `result`: wrapped in a success response when the request has an id,
/// the bare result for a notification.
pub open spec fn reply_ok(id: Option<JsonV>, result: JsonV) -> JsonV {
    match id {
        Some(i) => success_view(i, result),
        None => result,
    }
}

/// The error response for request `id`.
pub open spec fn reply_err(id: Option<JsonV>, code: int, message: Seq<char>) -> JsonV {
    json_rpc_error_view(code, message, opt_view(id))
}

/// The text of an unsupported-version error.
pub open spec fn unsupported_version_text(v: Seq<char>) -> Seq<char> {
    "Internal error: "@ + ("Unsupported protocol version: "@ + v
        + ". Supported versions: [\"2025-03-26\", \"2025-06-18\"]"@)
}

/// The result of a successful initialize: the negotiated version when there is one,
/// else the protocol's own description.
pub open spec fn init_result(
    pv: Option<Seq<char>>,
    version: Seq<char>,
    name: Seq<char>,
    server_version: Seq<char>,
) -> JsonV {
    match pv {
        Some(cv) => JsonV::Object(
            seq![
                ("protocolVersion"@, JsonV::Str(cv)),
                ("capabilities"@, JsonV::Object(seq![("tools"@, JsonV::Object(seq![("listChanged"@, JsonV::Bool(false))]))])),
                ("serverInfo"@, JsonV::Object(seq![("name"@, JsonV::Str(name)), ("version"@, JsonV::Str(server_version))])),
            ],
        ),
        None => initialize_view(version, name, server_version),
    }
}

/// The state of a session that was never initialized.
pub open spec fn fresh_state() -> HandlerState {
    HandlerState { initialized: false, client_info: None, protocol_version: None }
}

/// A session about to be initialized again starts over; any other keeps its state.
pub open spec fn reset_state(st: HandlerState) -> HandlerState {
    if st.initialized {
        fresh_state()
    } else {
        st
    }
}

/// Initialization of a session: earlier state is reset, client info is stored, and the
/// requested protocol version, when given, must be supported.
pub open spec fn init_step(
    st: HandlerState,
    ident: (Seq<char>, Seq<char>, Seq<char>),
    id: Option<JsonV>,
    params: JsonV,
) -> (HandlerState, BuiltinOutcome) {
    let s1 = reset_state(st);
    let s2 = HandlerState {
        client_info: match params.get("clientInfo"@) {
            Some(c) => Some(c),
            None => s1.client_info,
        },
        ..s1
    };
    match params.get("protocolVersion"@) {
        Some(pv) => {
            let v = match pv.as_str() {
                Some(s) => s,
                None => Seq::empty(),
            };
            if !supported_version(v) {
                (s2, BuiltinOutcome::Reply(reply_err(id, -32603, unsupported_version_text(v))))
            } else {
                let s3 = HandlerState { initialized: true, protocol_version: Some(v), ..s2 };
                (s3, BuiltinOutcome::Reply(reply_ok(id, init_result(s3.protocol_version, ident.0, ident.1, ident.2))))
            }
        },
        None => {
            let s3 = HandlerState { initialized: true, ..s2 };
            (s3, BuiltinOutcome::Reply(reply_ok(id, init_result(s3.protocol_version, ident.0, ident.1, ident.2))))
        },
    }
}

/// Whether a method is one of the notifications that are acknowledged with `{}`.
pub open spec fn acknowledged_notification(method: Seq<char>) -> bool {
    method == "notifications/cancel"@ || method == "notifications/initialized"@ || method
        == "notifications/message"@
}

/// Dispatch of a valid JSON-RPC message by its method.
pub open spec fn dispatch_step(
    st: HandlerState,
    ident: (Seq<char>, Seq<char>, Seq<char>),
    m: JsonV,
    method: Seq<char>,
) -> (HandlerState, BuiltinOutcome) {
    let id = m.get("id"@);
    let params = match m.get("params"@) {
        Some(p) => p,
        None => JsonV::Object(Seq::empty()),
    };
    if method == "initialize"@ {
        if !m.has("params"@) {
            (st, BuiltinOutcome::Reply(reply_err(id, -32602, "Invalid parameters: "@ + "Missing params field for initialize method"@)))
        } else {
            init_step(st, ident, id, params)
        }
    } else if method == "tools/list"@ {
        if !st.initialized {
            (st, BuiltinOutcome::Reply(reply_err(id, -32002, "Not initialized"@)))
        } else {
            (st, BuiltinOutcome::ListTools(id, st.protocol_version))
        }
    } else if method == "tools/call"@ {
        if !st.initialized {
            (st, BuiltinOutcome::Reply(reply_err(id, -32002, "Not initialized"@)))
        } else {
            match params.get_str("name"@) {
                None => (st, BuiltinOutcome::Reply(reply_err(id, -32602, "Invalid parameters: "@ + "Missing required 'name' field for tool call"@))),
                Some(name) => match params.get("arguments"@) {
                    None => (st, BuiltinOutcome::Reply(reply_err(id, -32602, "Invalid parameters: "@ + "Missing required 'arguments' field for tool call"@))),
                    Some(a) => if !a.is_object() {
                        (st, BuiltinOutcome::Reply(reply_err(id, -32602, "Invalid parameters: "@ + "Arguments must be an object"@)))
                    } else {
                        (st, BuiltinOutcome::CallTool(id, name, a))
                    },
                },
            }
        }
    } else if acknowledged_notification(method) {
        (st, BuiltinOutcome::Reply(reply_ok(id, JsonV::Object(Seq::empty()))))
    } else {
        (st, BuiltinOutcome::Reply(reply_err(id, -32601, "Method not found: "@ + method)))
    }
}

/// One message step of the built-in handler: the new session state and what it produced.
pub open spec fn builtin_step(
    st: HandlerState,
    ident: (Seq<char>, Seq<char>, Seq<char>),
    m: JsonV,
) -> (HandlerState, BuiltinOutcome) {
    match m.get_str("jsonrpc"@) {
        None => (st, BuiltinOutcome::Failed(-32602, "Invalid parameters: "@ + "Missing or invalid 'jsonrpc' field"@)),
        Some(j) => if j != "2.0"@ {
            (st, BuiltinOutcome::Failed(-32602, "Invalid parameters: "@ + ("Invalid jsonrpc version: "@ + j)))
        } else {
            match m.get_str("method"@) {
                None => (st, BuiltinOutcome::Failed(-32602, "Invalid parameters: "@ + "Missing or invalid 'method' field"@)),
                Some(method) => dispatch_step(st, ident, m, method),
            }
        },
    }
}

/// How the error text of a built-in tool becomes a JSON-RPC error: an unknown tool,
/// invalid parameters, or an internal error.
pub open spec fn tool_error(name: Seq<char>, msg: Seq<char>) -> (int, Seq<char>) {
    if contains(msg, "Unknown tool"@) {
        (-32601, "Tool not found: "@ + name)
    } else if contains(msg, "Missing required parameter"@) || contains(msg, "cannot be empty"@)
        || contains(msg, "Wrong type for"@) {
        (-32602, "Invalid parameters: "@ + msg)
    } else {
        (-32603, "Internal error: "@ + msg)
    }
}

/// A session can be initialized again: initializing an initialized session gives what
/// initializing a fresh session gives.
pub proof fn lemma_reinitialize_is_fresh(
    st: HandlerState,
    ident: (Seq<char>, Seq<char>, Seq<char>),
    id: Option<JsonV>,
    params: JsonV,
)
    requires
        st.initialized,
    ensures
        init_step(st, ident, id, params) == init_step(fresh_state(), ident, id, params),
{
}

/// Tools are refused until the session is initialized.
pub proof fn lemma_tools_need_initialize(
    st: HandlerState,
    ident: (Seq<char>, Seq<char>, Seq<char>),
    m: JsonV,
)
    requires
        !st.initialized,
        m.get_str("jsonrpc"@) == Some("2.0"@),
        m.get_str("method"@) == Some("tools/list"@) || m.get_str("method"@) == Some("tools/call"@),
    ensures
        builtin_step(st, ident, m) == (st, BuiltinOutcome::Reply(reply_err(m.get("id"@), -32002, "Not initialized"@))),
{
    reveal_strlit("initialize");
    reveal_strlit("tools/list");
    reveal_strlit("tools/call");
    assert("tools/list"@[0] != "initialize"@[0]);
    assert("tools/call"@[0] != "initialize"@[0]);
    assert("tools/call"@[6] != "tools/list"@[6]);
}

/// An initialize request that asks for a supported version, or for none, initializes the
/// session with that version and answers with it; tools are then listed for that version.
pub proof fn lemma_initialize_then_list(
    st: HandlerState,
    ident: (Seq<char>, Seq<char>, Seq<char>),
    init: JsonV,
    list: JsonV,
)
    requires
        init.get_str("jsonrpc"@) == Some("2.0"@),
        init.get_str("method"@) == Some("initialize"@),
        init.has("params"@),
        init.index("params"@).get("protocolVersion"@) is None || (init.index("params"@).get_str(
            "protocolVersion"@,
        ) matches Some(v) && supported_version(v)),
        list.get_str("jsonrpc"@) == Some("2.0"@),
        list.get_str("method"@) == Some("tools/list"@),
    ensures
        ({
            let (s1, out) = builtin_step(st, ident, init);
            &&& s1.initialized
            &&& s1.protocol_version == match init.index("params"@).get_str("protocolVersion"@) {
                Some(v) => Some(v),
                None => reset_state(st).protocol_version,
            }
            &&& out == BuiltinOutcome::Reply(
                reply_ok(init.get("id"@), init_result(s1.protocol_version, ident.0, ident.1, ident.2)),
            )
            &&& builtin_step(s1, ident, list) == (s1, BuiltinOutcome::ListTools(list.get("id"@), s1.protocol_version))
        }),
{
    reveal_strlit("initialize");
    reveal_strlit("tools/list");
    assert("tools/list"@[0] != "initialize"@[0]);
}

/// Unknown methods are answered with a method-not-found error that names them.
pub proof fn lemma_unknown_method(
    st: HandlerState,
    ident: (Seq<char>, Seq<char>, Seq<char>),
    m: JsonV,
    method: Seq<char>,
)
    requires
        m.get_str("jsonrpc"@) == Some("2.0"@),
        m.get_str("method"@) == Some(method),
        method != "initialize"@,
        method != "tools/list"@,
        method != "tools/call"@,
        !acknowledged_notification(method),
    ensures
        builtin_step(st, ident, m) == (st, BuiltinOutcome::Reply(reply_err(m.get("id"@), -32601, "Method not found: "@ + method))),
{
}

proof fn lemma_key_names()
    ensures
        "jsonrpc"@ != "id"@,
        "error"@ != "id"@,
{
    reveal_strlit("id");
    reveal_strlit("jsonrpc");
    reveal_strlit("error");
    assert("jsonrpc"@.len() != "id"@.len());
    assert("error"@.len() != "id"@.len());
}

/// Every reply to a request that has an id carries that id.
pub proof fn lemma_reply_echoes_id(
    st: HandlerState,
    ident: (Seq<char>, Seq<char>, Seq<char>),
    m: JsonV,
)
    requires
        m.has("id"@),
    ensures
        builtin_step(st, ident, m).1 matches BuiltinOutcome::Reply(j) ==> j.get("id"@) == m.get("id"@),
{
    lemma_key_names();
    let id = m.get("id"@)->0;
    assert forall|r: JsonV| #[trigger] success_view(id, r).get("id"@) == Some(id) by {
        let es = seq![("jsonrpc"@, JsonV::Str("2.0"@)), ("id"@, id), ("result"@, r)];
        let rest = seq![("id"@, id), ("result"@, r)];
        assert(es.drop_first() =~= rest);
        assert(member(rest, "id"@) == Some(id));
        assert(member(es, "id"@) == member(rest, "id"@));
    }
    assert forall|code: int, msg: Seq<char>| #[trigger] json_rpc_error_view(code, msg, id).get("id"@) == Some(id) by {
        lemma_error_view_id(code, msg, id);
    }
}

/// A JSON-RPC error response carries the id it was made for.
pub proof fn lemma_error_view_id(code: int, msg: Seq<char>, id: JsonV)
    ensures
        json_rpc_error_view(code, msg, id).get("id"@) == Some(id),
{
    lemma_key_names();
    lemma_member_third(
        "jsonrpc"@,
        JsonV::Str("2.0"@),
        "error"@,
        JsonV::Object(seq![("code"@, JsonV::Int(code)), ("message"@, JsonV::Str(msg))]),
        "id"@,
        id,
        "id"@,
    );
}

/// An initialize request that asks for a version other than `2025-03-26` and
/// `2025-06-18` is answered with an internal error naming it, and leaves the session
/// uninitialized.
pub proof fn lemma_unsupported_version_refused(
    st: HandlerState,
    ident: (Seq<char>, Seq<char>, Seq<char>),
    m: JsonV,
    v: Seq<char>,
)
    requires
        m.get_str("jsonrpc"@) == Some("2.0"@),
        m.get_str("method"@) == Some("initialize"@),
        m.has("params"@),
        m.index("params"@).get_str("protocolVersion"@) == Some(v),
        !supported_version(v),
    ensures
        !builtin_step(st, ident, m).0.initialized,
        builtin_step(st, ident, m).1 == BuiltinOutcome::Reply(
            reply_err(m.get("id"@), -32603, unsupported_version_text(v)),
        ),
{
}

/// Only JSON-RPC 2.0 is spoken: a message without a `jsonrpc` text, or with another
/// version, is refused with an invalid-parameters error and changes nothing.
pub proof fn lemma_jsonrpc_version_checked(
    st: HandlerState,
    ident: (Seq<char>, Seq<char>, Seq<char>),
    m: JsonV,
)
    requires
        m.get_str("jsonrpc"@) != Some("2.0"@),
    ensures
        builtin_step(st, ident, m).0 == st,
        builtin_step(st, ident, m).1 matches BuiltinOutcome::Failed(code, _) && code == -32602,
{
}

/// In an initialized session, a tool call whose parameters name the tool and give its
/// arguments as an object leaves the session as it is and runs that tool on exactly
/// those arguments, answering the request's id.
pub proof fn lemma_tool_call_runs_on_its_arguments(
    st: HandlerState,
    ident: (Seq<char>, Seq<char>, Seq<char>),
    m: JsonV,
    params: JsonV,
    name: Seq<char>,
    arguments: JsonV,
)
    requires
        st.initialized,
        m.get_str("jsonrpc"@) == Some("2.0"@),
        m.get_str("method"@) == Some("tools/call"@),
        m.get("params"@) == Some(params),
        params.get_str("name"@) == Some(name),
        params.get("arguments"@) == Some(arguments),
        arguments is Object,
    ensures
        builtin_step(st, ident, m) == (st, BuiltinOutcome::CallTool(m.get("id"@), name, arguments)),
{
    reveal_strlit("initialize");
    reveal_strlit("tools/list");
    reveal_strlit("tools/call");
    assert("tools/call"@[0] != "initialize"@[0]);
    assert("tools/call"@[6] != "tools/list"@[6]);
}

/// The built-in protocol handler of one session.
pub struct McpProtocolHandlerImpl {
    protocol: McpProtocol,
    pub initialized: bool,
    pub client_info: Option<Json>,
    pub protocol_version: Option<String>,
}

impl McpProtocolHandlerImpl {
    /// The session state.
    pub closed spec fn state(&self) -> HandlerState {
        HandlerState {
            initialized: self.initialized,
            client_info: opt_json(self.client_info),
            protocol_version: opt_chars(self.protocol_version),
        }
    }

    /// The server's own protocol version, name and version.
    pub closed spec fn identity(&self) -> (Seq<char>, Seq<char>, Seq<char>) {
        (self.protocol.spec_version(), self.protocol.spec_server_name(), self.protocol.spec_server_version())
    }

    /// The identity every handler has.
    pub open spec fn standard_identity() -> (Seq<char>, Seq<char>, Seq<char>) {
        (default_protocol_version(), "mcp-server"@, package_version())
    }

    /// A fresh, uninitialized session.
    pub fn new() -> (r: Self)
        ensures
            r.state() == fresh_state(),
            r.identity() == Self::standard_identity(),
    {
        McpProtocolHandlerImpl {
            protocol: McpProtocol::new(),
            initialized: false,
            client_info: None,
            protocol_version: None,
        }
    }

    /// A session that is already initialized with the given client info and version.
    pub fn with_initialized(client_info: Option<Json>, protocol_version: Option<String>) -> (r: Self)
        ensures
            r.state() == (HandlerState {
                initialized: true,
                client_info: opt_json(client_info),
                protocol_version: opt_chars(protocol_version),
            }),
            r.identity() == Self::standard_identity(),
    {
        McpProtocolHandlerImpl { protocol: McpProtocol::new(), initialized: true, client_info, protocol_version }
    }

    /// Whether the session is initialized.
    pub fn is_initialized(&self) -> (r: bool)
        ensures
            r == self.state().initialized,
    {
        self.initialized
    }

    /// The server's protocol version.
    pub fn protocol_version(&self) -> (r: &str)
        ensures
            r@ == self.identity().0,
    {
        self.protocol.version()
    }

    /// A JSON-RPC error response answering `id`.
    pub fn create_error_response(&self, id: Json, code: i32, message: &str) -> (r: Json)
        ensures
            r@ == crate::protocol::error_view(id@, code as int, message@),
    {
        self.protocol.create_error_response(id, code, message)
    }

    fn reply_ok(&self, id: Option<Json>, result: Json) -> (r: Json)
        ensures
            r@ == reply_ok(opt_json(id), result@),
    {
        match id {
            Some(i) => self.protocol.create_success_response(i, result),
            None => result,
        }
    }

    fn init_result(&self) -> (r: Json)
        ensures
            r@ == init_result(opt_chars(self.protocol_version), self.identity().0, self.identity().1, self.identity().2),
    {
        match &self.protocol_version {
            Some(cv) => {
                let caps = obj1("tools", obj1("listChanged", Json::Bool(false)));
                let info = obj2(
                    "name",
                    Json::string(self.protocol.server_name()),
                    "version",
                    Json::string(self.protocol.server_version()),
                );
                obj3("protocolVersion", Json::string(cv.as_str()), "capabilities", caps, "serverInfo", info)
            },
            None => self.protocol.create_initialize_response(),
        }
    }

    fn handle_initialize(&mut self, id: Option<Json>, params: &Json) -> (r: BuiltinStep)
        ensures
            (final(self).state(), r@) == init_step(old(self).state(), old(self).identity(), opt_json(id), params@),
            final(self).identity() == old(self).identity(),
    {
        self.reset_if_initialized();
        match params.get("clientInfo") {
            Some(c) => {
                self.client_info = Some(c.deep_copy());
            },
            None => {},
        }
        match params.get("protocolVersion") {
            Some(pv) => {
                let v = match pv {
                    Json::Str(s) => copy_str(s.as_str()),
                    _ => String::new(),
                };
                if !(str_eq(v.as_str(), "2025-03-26") || str_eq(v.as_str(), "2025-06-18")) {
                    let mut msg = copy_str("Unsupported protocol version: ");
                    append_str(&mut msg, v.as_str());
                    append_str(&mut msg, ". Supported versions: [\"2025-03-26\", \"2025-06-18\"]");
                    let e = McpError::Internal(msg);
                    return BuiltinStep::Reply(Ok(e.to_json_rpc_error(id)));
                }
                self.protocol_version = Some(v);
            },
            None => {},
        }
        self.initialized = true;
        let result = self.init_result();
        BuiltinStep::Reply(Ok(self.reply_ok(id, result)))
    }

    /// Starts the session over when it is initialized.
    pub(crate) fn reset_if_initialized(&mut self)
        ensures
            final(self).state() == reset_state(old(self).state()),
            final(self).identity() == old(self).identity(),
    {
        if self.initialized {
            self.initialized = false;
            self.client_info = None;
            self.protocol_version = None;
        }
    }

    /// Records a successful initialization, with the protocol version the client asked
    /// for when it gave one.
    pub(crate) fn mark_initialized(&mut self, version: Option<String>)
        ensures
            final(self).state() == (HandlerState {
                initialized: true,
                protocol_version: match version {
                    Some(v) => Some(v@),
                    None => old(self).state().protocol_version,
                },
                ..old(self).state()
            }),
            final(self).identity() == old(self).identity(),
    {
        self.initialized = true;
        match version {
            Some(v) => {
                self.protocol_version = Some(v);
            },
            None => {},
        }
    }

    /// Handles one JSON-RPC message of this session.
    pub fn handle_message(&mut self, message: &Json) -> (r: BuiltinStep)
        ensures
            (final(self).state(), r@) == builtin_step(old(self).state(), old(self).identity(), message@),
            final(self).identity() == old(self).identity(),
    {
        let jsonrpc = match message.get_str("jsonrpc") {
            Some(j) => j,
            None => {
                return BuiltinStep::Reply(Err(McpError::InvalidParams(copy_str("Missing or invalid 'jsonrpc' field"))));
            },
        };
        if !str_eq(jsonrpc.as_str(), "2.0") {
            let mut msg = copy_str("Invalid jsonrpc version: ");
            append_str(&mut msg, jsonrpc.as_str());
            return BuiltinStep::Reply(Err(McpError::InvalidParams(msg)));
        }
        let method = match message.get_str("method") {
            Some(m) => m,
            None => {
                return BuiltinStep::Reply(Err(McpError::InvalidParams(copy_str("Missing or invalid 'method' field"))));
            },
        };
        let id = message.get_copy("id");
        let params = match message.get("params") {
            Some(p) => p.deep_copy(),
            None => empty_object(),
        };
        let m = method.as_str();
        if str_eq(m, "initialize") {
            if !message.has("params") {
                let e = McpError::InvalidParams(copy_str("Missing params field for initialize method"));
                return BuiltinStep::Reply(Ok(e.to_json_rpc_error(id)));
            }
            self.handle_initialize(id, &params)
        } else if str_eq(m, "tools/list") {
            if !self.initialized {
                return BuiltinStep::Reply(Ok(McpError::NotInitialized.to_json_rpc_error(id)));
            }
            let pv = match &self.protocol_version {
                Some(v) => Some(copy_str(v.as_str())),
                None => None,
            };
            BuiltinStep::ListTools { id, protocol_version: pv }
        } else if str_eq(m, "tools/call") {
            if !self.initialized {
                return BuiltinStep::Reply(Ok(McpError::NotInitialized.to_json_rpc_error(id)));
            }
            let name = match params.get_str("name") {
                Some(n) => copy_str(n.as_str()),
                None => {
                    let e = McpError::InvalidParams(copy_str("Missing required 'name' field for tool call"));
                    return BuiltinStep::Reply(Ok(e.to_json_rpc_error(id)));
                },
            };
            let arguments = match params.get("arguments") {
                Some(a) => a,
                None => {
                    let e = McpError::InvalidParams(copy_str("Missing required 'arguments' field for tool call"));
                    return BuiltinStep::Reply(Ok(e.to_json_rpc_error(id)));
                },
            };
            if !arguments.is_object() {
                let e = McpError::InvalidParams(copy_str("Arguments must be an object"));
                return BuiltinStep::Reply(Ok(e.to_json_rpc_error(id)));
            }
            BuiltinStep::CallTool { id, name, arguments: arguments.deep_copy() }
        } else if str_eq(m, "notifications/cancel") || str_eq(m, "notifications/initialized") || str_eq(
            m,
            "notifications/message",
        ) {
            BuiltinStep::Reply(Ok(self.reply_ok(id, empty_object())))
        } else {
            let e = McpError::UnknownMethod(copy_str(m));
            BuiltinStep::Reply(Ok(e.to_json_rpc_error(id)))
        }
    }

    /// Finishes a `tools/list` request with the built-in tool list.
    pub fn finish_tools_list(&self, id: Option<Json>, tools: Json) -> (r: McpResult<Json>)
        ensures
            r matches Ok(j) && j@ == reply_ok(opt_json(id), tools@),
    {
        Ok(self.reply_ok(id, tools))
    }

    /// Finishes a `tools/call` request with the outcome of the tool: its result, or the
    /// text of its failure.
    pub fn finish_tool_call(&self, id: Option<Json>, name: &str, outcome: Result<Json, String>) -> (r: McpResult<Json>)
        ensures
            r matches Ok(j) && j@ == match outcome {
                Ok(v) => reply_ok(opt_json(id), v@),
                Err(msg) => reply_err(opt_json(id), tool_error(name@, msg@).0, tool_error(name@, msg@).1),
            },
    {
        match outcome {
            Ok(v) => Ok(self.reply_ok(id, v)),
            Err(msg) => {
                let e = if contains_str(msg.as_str(), "Unknown tool") {
                    McpError::UnknownTool(copy_str(name))
                } else if contains_str(msg.as_str(), "Missing required parameter") || contains_str(
                    msg.as_str(),
                    "cannot be empty",
                ) || contains_str(msg.as_str(), "Wrong type for") {
                    McpError::InvalidParams(msg)
                } else {
                    McpError::Internal(msg)
                };
                Ok(e.to_json_rpc_error(id))
            },
        }
    }
}

impl Default for McpProtocolHandlerImpl {
    fn default() -> (r: Self)
        ensures
            r.state() == fresh_state(),
            r.identity() == McpProtocolHandlerImpl::standard_identity(),
    {
        McpProtocolHandlerImpl::new()
    }
}

} // verus!

//! The protocol engine: routes JSON-RPC messages to the session they belong to,
//! and to a user-provided handler when one is registered.
//!
//! Sessions are found through a concurrent index from session keys to slots; each
//! slot holds the built-in protocol handler of one session, so that sessions never
//! see each other's state.
//!
//! A user handler is asynchronous code that the caller runs: when a message is for
//! it, [`McpProtocolEngine::handle_message`] returns the call to make, and the
//! caller hands the handler's outcome to the matching `finish_*` method.

use vstd::prelude::*;
use dashmap::DashMap;
use crate::error::{McpError, McpResult, error_code_of, error_message_of, json_rpc_error_view};
use crate::handler::{ToolDefinition, ResourceInfo, ResourceContent, PromptInfo, PromptContent, tool_view,
    resource_view, content_view, prompt_view, message_view};
use crate::json::{Json, JsonV, opt_json, opt_chars, obj1, obj3, array_of, items_view};
use crate::protocol::success_view;
use crate::protocol_impl::{lemma_error_view_id, lemma_reply_echoes_id, lemma_initialize_then_list, supported_version, McpProtocolHandlerImpl, HandlerState, BuiltinStep, BuiltinOutcome, builtin_step,
    fresh_state, reset_state};
use crate::text::{copy_str, str_eq};

verus! {

broadcast use vstd::string::group_string_axioms;

/// `dashmap::DashMap`, the concurrent map that indexes sessions; opaque to proofs, which
/// see it only through `index_contents`.
#[verifier::external_type_specification]
#[verifier::external_body]
#[verifier::reject_recursive_types(K)]
#[verifier::reject_recursive_types(V)]
#[verifier::reject_recursive_types(S)]
pub struct ExDashMap<K, V, S>(DashMap<K, V, S>);

/// The entries of a session index: each session key and its slot.
pub uninterp spec fn index_contents(m: DashMap<String, usize>) -> Map<Seq<char>, usize>;

/// An index with no entries.
pub open spec fn empty_index() -> Map<Seq<char>, usize> {
    Map::empty()
}

/// `DashMap::new`: an index with no entries.
#[verifier::external_body]
fn new_index() -> (r: DashMap<String, usize>)
    ensures
        index_contents(r) == empty_index(),
{
    DashMap::new()
}

/// `DashMap::get`: the slot stored under `key`, if there is one.
#[verifier::external_body]
fn index_get(m: &DashMap<String, usize>, key: &str) -> (r: Option<usize>)
    ensures
        match r {
            Some(i) => index_contents(*m).contains_key(key@) && index_contents(*m)[key@] == i,
            None => !index_contents(*m).contains_key(key@),
        },
{
    match m.get(key) {
        Some(entry) => Some(*entry.value()),
        None => None,
    }
}

/// `DashMap::insert`: `key` maps to `slot` afterwards, every other key as before.
#[verifier::external_body]
fn index_insert(m: &mut DashMap<String, usize>, key: String, slot: usize)
    ensures
        index_contents(*final(m)) == index_contents(*old(m)).insert(key@, slot),
{
    m.insert(key, slot);
}

/// A call that the user handler has to make.
#[allow(inconsistent_fields)]
pub enum HandlerCall {
    Initialize { params: Json },
    ListTools,
    CallTool { name: String, arguments: Json },
    ListResources,
    ReadResource { uri: String },
    ListPrompts,
    GetPrompt { name: String, arguments: Option<Json> },
}

/// The value of a handler call.
pub enum CallV {
    Initialize(JsonV),
    ListTools,
    CallTool(Seq<char>, JsonV),
    ListResources,
    ReadResource(Seq<char>),
    ListPrompts,
    GetPrompt(Seq<char>, Option<JsonV>),
}

impl View for HandlerCall {
    type V = CallV;

    open spec fn view(&self) -> CallV {
        match *self {
            HandlerCall::Initialize { params } => CallV::Initialize(params@),
            HandlerCall::ListTools => CallV::ListTools,
            HandlerCall::CallTool { name, arguments } => CallV::CallTool(name@, arguments@),
            HandlerCall::ListResources => CallV::ListResources,
            HandlerCall::ReadResource { uri } => CallV::ReadResource(uri@),
            HandlerCall::ListPrompts => CallV::ListPrompts,
            HandlerCall::GetPrompt { name, arguments } => CallV::GetPrompt(name@, opt_json(arguments)),
        }
    }
}

/// What a handler call answers: the session it belongs to, the request id (`null` when
/// the request has none), and the protocol version the client asked for.
pub struct Pending {
    pub session: String,
    pub id: Json,
    pub client_version: Option<String>,
}

/// The value of a pending request.
pub struct PendingV {
    pub session: Seq<char>,
    pub id: JsonV,
    pub client_version: Option<Seq<char>>,
}

impl View for Pending {
    type V = PendingV;

    open spec fn view(&self) -> PendingV {
        PendingV { session: self.session@, id: self.id@, client_version: opt_chars(self.client_version) }
    }
}

/// What handling a message produced.
pub enum EngineStep {
    /// The built-in handler of the session took the message.
    Builtin(BuiltinStep),
    /// The user handler must make `call`; its outcome finishes `pending`.
    Call { pending: Pending, call: HandlerCall },
}

/// The value of an engine step.
pub enum EngineOutcome {
    Builtin(BuiltinOutcome),
    Call(CallV, PendingV),
}

impl View for EngineStep {
    type V = EngineOutcome;

    open spec fn view(&self) -> EngineOutcome {
        match *self {
            EngineStep::Builtin(b) => EngineOutcome::Builtin(b@),
            EngineStep::Call { pending, call } => EngineOutcome::Call(call@, pending@),
        }
    }
}

/// The key of a session: its id, or `default` for messages without one.
pub open spec fn session_key(sid: Option<Seq<char>>) -> Seq<char> {
    match sid {
        Some(s) => s,
        None => "default"@,
    }
}

/// The state of session `key`; a session not seen before starts fresh.
pub open spec fn session_state(sessions: Map<Seq<char>, HandlerState>, key: Seq<char>) -> HandlerState {
    if sessions.contains_key(key) {
        sessions[key]
    } else {
        fresh_state()
    }
}

/// The call a user handler takes for a method, when it takes it: the list methods always,
/// a call, read or get only when its parameters name what it is for.
pub open spec fn custom_call(m: JsonV, method: Seq<char>) -> Option<CallV> {
    let params = m.index("params"@);
    if method == "initialize"@ {
        Some(CallV::Initialize(params))
    } else if method == "tools/list"@ {
        Some(CallV::ListTools)
    } else if method == "tools/call"@ {
        match (params.get_str("name"@), params.get("arguments"@)) {
            (Some(n), Some(a)) => Some(CallV::CallTool(n, a)),
            _ => None,
        }
    } else if method == "resources/list"@ {
        Some(CallV::ListResources)
    } else if method == "resources/read"@ {
        match params.get_str("uri"@) {
            Some(u) => Some(CallV::ReadResource(u)),
            None => None,
        }
    } else if method == "prompts/list"@ {
        Some(CallV::ListPrompts)
    } else if method == "prompts/get"@ {
        match params.get_str("name"@) {
            Some(n) => Some(CallV::GetPrompt(n, params.get("arguments"@))),
            None => None,
        }
    } else {
        None
    }
}

/// A built-in outcome as the engine answers it: an error of the built-in handler becomes
/// the JSON-RPC error response for the request `id`; every other outcome stays.
pub open spec fn answered(out: BuiltinOutcome, id: JsonV) -> BuiltinOutcome {
    match out {
        BuiltinOutcome::Failed(code, msg) => BuiltinOutcome::Reply(json_rpc_error_view(code, msg, id)),
        _ => out,
    }
}

/// One message step of the engine: the sessions afterwards and what the step produced.
/// A message without a method is answered with an invalid-parameters error response and
/// creates no session; any other message belongs to its session, which it may change,
/// and to no other. Errors are always answered with JSON-RPC error responses.
pub open spec fn engine_step(
    sessions: Map<Seq<char>, HandlerState>,
    has_handler: bool,
    m: JsonV,
    sid: Option<Seq<char>>,
) -> (Map<Seq<char>, HandlerState>, EngineOutcome) {
    match m.get_str("method"@) {
        None => (
            sessions,
            EngineOutcome::Builtin(
                BuiltinOutcome::Reply(
                    json_rpc_error_view(-32602, "Invalid parameters: "@ + "Missing method field"@, m.index("id"@)),
                ),
            ),
        ),
        Some(method) => {
            let key = session_key(sid);
            let st = session_state(sessions, key);
            match (if has_handler { custom_call(m, method) } else { None }) {
                Some(call) => {
                    let st2 = if call is Initialize { reset_state(st) } else { st };
                    let pending = PendingV {
                        session: key,
                        id: m.index("id"@),
                        client_version: m.index("params"@).get_str("protocolVersion"@),
                    };
                    (sessions.insert(key, st2), EngineOutcome::Call(call, pending))
                },
                None => {
                    let (st2, out) = builtin_step(st, McpProtocolHandlerImpl::standard_identity(), m);
                    (sessions.insert(key, st2), EngineOutcome::Builtin(answered(out, m.index("id"@))))
                },
            }
        },
    }
}

/// The sessions after a user handler initialized session `p.session`.
pub open spec fn initialized_after(sessions: Map<Seq<char>, HandlerState>, p: PendingV) -> Map<
    Seq<char>,
    HandlerState,
> {
    let st = session_state(sessions, p.session);
    sessions.insert(
        p.session,
        HandlerState {
            initialized: true,
            protocol_version: match p.client_version {
                Some(v) => Some(v),
                None => st.protocol_version,
            },
            ..st
        },
    )
}

/// The value of a reply: the response, or the code and text of the error.
pub open spec fn reply_view(r: McpResult<Json>) -> BuiltinOutcome {
    match r {
        Ok(j) => BuiltinOutcome::Reply(j@),
        Err(e) => BuiltinOutcome::Failed(error_code_of(e), error_message_of(e)),
    }
}

/// How a user handler's outcome is answered: its result in a success response for the
/// request, or an internal-error response (-32603) with the handler's error text.
pub open spec fn custom_reply(id: JsonV, outcome: Result<JsonV, Seq<char>>) -> BuiltinOutcome {
    match outcome {
        Ok(v) => BuiltinOutcome::Reply(success_view(id, v)),
        Err(msg) => BuiltinOutcome::Reply(json_rpc_error_view(-32603, "Internal error: "@ + msg, id)),
    }
}

/// The value of a user handler's outcome.
pub open spec fn outcome_view(o: Result<Json, String>) -> Result<JsonV, Seq<char>> {
    match o {
        Ok(v) => Ok(v@),
        Err(msg) => Err(msg@),
    }
}

/// The outcome of a list call, mapped item by item to its JSON form and wrapped in an
/// object under `key`.
pub open spec fn listed(key: Seq<char>, items: Seq<JsonV>) -> JsonV {
    JsonV::Object(seq![(key, JsonV::Array(items))])
}

/// Sessions are isolated: handling a message of one session neither creates, removes nor
/// changes any other session.
pub proof fn lemma_sessions_isolated(
    sessions: Map<Seq<char>, HandlerState>,
    has_handler: bool,
    m: JsonV,
    sid: Option<Seq<char>>,
    other: Seq<char>,
)
    requires
        other != session_key(sid),
    ensures
        engine_step(sessions, has_handler, m, sid).0.contains_key(other) == sessions.contains_key(other),
        sessions.contains_key(other) ==> engine_step(sessions, has_handler, m, sid).0[other] == sessions[other],
{
}

/// A message with a method always leaves its session in the engine; one without a
/// method changes nothing.
pub proof fn lemma_session_recorded(
    sessions: Map<Seq<char>, HandlerState>,
    has_handler: bool,
    m: JsonV,
    sid: Option<Seq<char>>,
)
    ensures
        m.get_str("method"@) is Some ==> engine_step(sessions, has_handler, m, sid).0.contains_key(session_key(sid)),
        m.get_str("method"@) is None ==> engine_step(sessions, has_handler, m, sid).0 == sessions,
{
}

/// With a user handler, `initialize` starts an initialized session over before the
/// handler runs, and a successful handler leaves the session initialized.
pub proof fn lemma_custom_reinitialize(
    sessions: Map<Seq<char>, HandlerState>,
    m: JsonV,
    sid: Option<Seq<char>>,
)
    requires
        m.get_str("method"@) == Some("initialize"@),
    ensures
        ({
            let (after, out) = engine_step(sessions, true, m, sid);
            &&& after[session_key(sid)] == reset_state(session_state(sessions, session_key(sid)))
            &&& out matches EngineOutcome::Call(CallV::Initialize(_), p)
            &&& initialized_after(after, p)[session_key(sid)].initialized
        }),
{
}

/// Every answer to a request with an id is tied to that id: a built-in reply carries it,
/// and a call to the user handler is pending under it.
pub proof fn lemma_engine_echoes_id(
    sessions: Map<Seq<char>, HandlerState>,
    has_handler: bool,
    m: JsonV,
    sid: Option<Seq<char>>,
)
    requires
        m.has("id"@),
    ensures
        match engine_step(sessions, has_handler, m, sid).1 {
            EngineOutcome::Builtin(BuiltinOutcome::Reply(j)) => j.get("id"@) == m.get("id"@),
            EngineOutcome::Call(_, p) => Some(p.id) == m.get("id"@),
            _ => true,
        },
{
    lemma_reply_echoes_id(
        session_state(sessions, session_key(sid)),
        McpProtocolHandlerImpl::standard_identity(),
        m,
    );
    let id = m.get("id"@)->0;
    assert forall|code: int, msg: Seq<char>| #[trigger] json_rpc_error_view(code, msg, id).get("id"@) == Some(id) by {
        lemma_error_view_id(code, msg, id);
    }
}

/// The engine answers every message with a JSON-RPC response: errors of the built-in
/// handler, of a message without a method and of the user handler all come back as
/// error responses, never as a failure of the call.
pub proof fn lemma_engine_always_responds(
    sessions: Map<Seq<char>, HandlerState>,
    has_handler: bool,
    m: JsonV,
    sid: Option<Seq<char>>,
    outcome: Result<JsonV, Seq<char>>,
    id: JsonV,
)
    ensures
        !(engine_step(sessions, has_handler, m, sid).1 matches EngineOutcome::Builtin(BuiltinOutcome::Failed(_, _))),
        custom_reply(id, outcome) is Reply,
{
}

/// State persists across messages of a session: after the built-in handler initializes a
/// session with a supported version (or none), a later `tools/list` of that session is
/// accepted for that version, whatever other sessions exist.
pub proof fn lemma_engine_initialize_then_list(
    sessions: Map<Seq<char>, HandlerState>,
    init: JsonV,
    list: JsonV,
    sid: Option<Seq<char>>,
)
    requires
        init.get_str("jsonrpc"@) == Some("2.0"@),
        init.get_str("method"@) == Some("initialize"@),
        init.has("params"@),
        init.index("params"@).get("protocolVersion"@) is None || (init.index("params"@).get_str(
            "protocolVersion"@,
        ) matches Some(v) && supported_version(v)),
        list.get_str("jsonrpc"@) == Some("2.0"@),
        list.get_str("method"@) == Some("tools/list"@),
    ensures
        ({
            let (after, _) = engine_step(sessions, false, init, sid);
            let key = session_key(sid);
            &&& after[key].initialized
            &&& engine_step(after, false, list, sid).1 == EngineOutcome::Builtin(
                BuiltinOutcome::ListTools(list.get("id"@), after[key].protocol_version),
            )
        }),
{
    let key = session_key(sid);
    lemma_initialize_then_list(
        session_state(sessions, key),
        McpProtocolHandlerImpl::standard_identity(),
        init,
        list,
    );
}

proof fn lemma_method_names_distinct()
    ensures
        "initialize"@ != "tools/list"@,
        "initialize"@ != "tools/call"@,
        "tools/list"@ != "tools/call"@,
        "resources/list"@ != "resources/read"@,
        "prompts/list"@ != "prompts/get"@,
        "initialize"@.len() == 10,
        "tools/list"@.len() == 10,
        "tools/call"@.len() == 10,
        "resources/list"@.len() == 14,
        "resources/read"@.len() == 14,
        "prompts/list"@.len() == 12,
        "prompts/get"@.len() == 11,
{
    reveal_strlit("initialize");
    reveal_strlit("tools/list");
    reveal_strlit("tools/call");
    reveal_strlit("resources/list");
    reveal_strlit("resources/read");
    reveal_strlit("prompts/list");
    reveal_strlit("prompts/get");
    assert("tools/list"@[0] != "initialize"@[0]);
    assert("tools/call"@[0] != "initialize"@[0]);
    assert("tools/call"@[6] != "tools/list"@[6]);
    assert("resources/list"@[10] != "resources/read"@[10]);
    assert("prompts/list"@.len() != "prompts/get"@.len());
}

/// With a user handler, each call hands the handler what the client sent, unchanged,
/// in the request's own session and under its id: `initialize` its parameters,
/// `tools/call` the tool's name and arguments, `resources/read` the URI, and
/// `prompts/get` the prompt's name and its arguments (absent when the client gave none).
pub proof fn lemma_handler_gets_what_the_client_sent(
    sessions: Map<Seq<char>, HandlerState>,
    m: JsonV,
    sid: Option<Seq<char>>,
)
    requires
        m.get_str("method"@) is Some,
    ensures
        ({
            let method = m.get_str("method"@)->0;
            let params = m.index("params"@);
            let out = engine_step(sessions, true, m, sid).1;
            let pending = PendingV {
                session: session_key(sid),
                id: m.index("id"@),
                client_version: params.get_str("protocolVersion"@),
            };
            &&& method == "initialize"@ ==> out == EngineOutcome::Call(CallV::Initialize(params), pending)
            &&& (method == "tools/call"@ && params.get_str("name"@) is Some && params.get("arguments"@) is Some)
                ==> out == EngineOutcome::Call(
                CallV::CallTool(params.get_str("name"@)->0, params.get("arguments"@)->0),
                pending,
            )
            &&& (method == "resources/read"@ && params.get_str("uri"@) is Some) ==> out == EngineOutcome::Call(
                CallV::ReadResource(params.get_str("uri"@)->0),
                pending,
            )
            &&& (method == "prompts/get"@ && params.get_str("name"@) is Some) ==> out == EngineOutcome::Call(
                CallV::GetPrompt(params.get_str("name"@)->0, params.get("arguments"@)),
                pending,
            )
        }),
{
    lemma_method_names_distinct();
}

/// The routing engine of an MCP server.
pub struct McpProtocolEngine {
    session_index: DashMap<String, usize>,
    sessions: Vec<McpProtocolHandlerImpl>,
    has_handler: bool,
}

impl McpProtocolEngine {
    /// Every indexed slot exists, no two sessions share a slot, and every slot holds a
    /// handler with the standard server identity.
    pub closed spec fn wf(&self) -> bool {
        let idx = index_contents(self.session_index);
        &&& forall|k: Seq<char>| #[trigger] idx.contains_key(k) ==> idx[k] < self.sessions@.len()
        &&& forall|k1: Seq<char>, k2: Seq<char>|
            #[trigger] idx.contains_key(k1) && #[trigger] idx.contains_key(k2) && k1 != k2 ==> idx[k1] != idx[k2]
        &&& forall|i: int|
            0 <= i < self.sessions@.len() ==> (#[trigger] self.sessions@[i]).identity()
                == McpProtocolHandlerImpl::standard_identity()
    }

    /// The state of every session, by key.
    pub closed spec fn sessions(&self) -> Map<Seq<char>, HandlerState> {
        let idx = index_contents(self.session_index);
        Map::new(|k: Seq<char>| idx.contains_key(k), |k: Seq<char>| self.sessions@[idx[k] as int].state())
    }

    /// Whether a user handler is registered.
    pub closed spec fn has_handler(&self) -> bool {
        self.has_handler
    }

    /// An engine with no sessions that answers every message with the built-in handler.
    pub fn new() -> (r: Self)
        ensures
            r.wf(),
            r.sessions() == Map::<Seq<char>, HandlerState>::empty(),
            !r.has_handler(),
    {
        let r = McpProtocolEngine { session_index: new_index(), sessions: Vec::new(), has_handler: false };
        assert(r.sessions() =~= Map::<Seq<char>, HandlerState>::empty());
        r
    }

    /// An engine with no sessions whose user handler takes the methods it implements.
    pub fn with_handler() -> (r: Self)
        ensures
            r.wf(),
            r.sessions() == Map::<Seq<char>, HandlerState>::empty(),
            r.has_handler(),
    {
        let r = McpProtocolEngine { session_index: new_index(), sessions: Vec::new(), has_handler: true };
        assert(r.sessions() =~= Map::<Seq<char>, HandlerState>::empty());
        r
    }

    /// The slot of session `key`, made for a fresh session when there is none.
    fn session_slot(&mut self, key: &str) -> (i: usize)
        requires
            old(self).wf(),
        ensures
            final(self).wf(),
            i < final(self).sessions@.len(),
            index_contents(final(self).session_index).contains_key(key@),
            index_contents(final(self).session_index)[key@] == i,
            final(self).sessions() == old(self).sessions().insert(key@, session_state(old(self).sessions(), key@)),
            final(self).has_handler == old(self).has_handler,
    {
        match index_get(&self.session_index, key) {
            Some(i) => {
                assert(self.sessions() =~= self.sessions().insert(key@, session_state(self.sessions(), key@)));
                i
            },
            None => {
                let ghost before = self.sessions();
                let i = self.sessions.len();
                self.sessions.push(McpProtocolHandlerImpl::new());
                index_insert(&mut self.session_index, copy_str(key), i);
                assert(self.sessions() =~= before.insert(key@, fresh_state()));
                i
            },
        }
    }

    /// Puts `h` into slot `i`, which belongs to session `key`, and hands back the handler
    /// that was there.
    fn swap_session(&mut self, key: Ghost<Seq<char>>, i: usize, h: McpProtocolHandlerImpl) -> (prev: McpProtocolHandlerImpl)
        requires
            old(self).wf(),
            index_contents(old(self).session_index).contains_key(key@),
            index_contents(old(self).session_index)[key@] == i,
            h.identity() == McpProtocolHandlerImpl::standard_identity(),
        ensures
            final(self).wf(),
            prev.state() == old(self).sessions()[key@],
            prev.identity() == McpProtocolHandlerImpl::standard_identity(),
            final(self).sessions() == old(self).sessions().insert(key@, h.state()),
            final(self).session_index == old(self).session_index,
            final(self).has_handler == old(self).has_handler,
    {
        let ghost before = self.sessions();
        let mut h = h;
        self.sessions.set_and_swap(i, &mut h);
        assert(self.sessions() =~= before.insert(key@, self.sessions@[i as int].state()));
        h
    }

    /// Handles one message of session `session_id` (`default` when it has none).
    pub fn handle_message(&mut self, message: &Json, session_id: Option<String>) -> (r: EngineStep)
        requires
            old(self).wf(),
        ensures
            final(self).wf(),
            (final(self).sessions(), r@) == engine_step(
                old(self).sessions(),
                old(self).has_handler(),
                message@,
                opt_chars(session_id),
            ),
            final(self).has_handler() == old(self).has_handler(),
    {
        let method = match message.get_str("method") {
            Some(m) => copy_str(m.as_str()),
            None => {
                let e = McpError::InvalidParams(copy_str("Missing method field"));
                return EngineStep::Builtin(BuiltinStep::Reply(Ok(e.to_json_rpc_error(Some(message.index_copy("id"))))));
            },
        };
        let key = match session_id {
            Some(s) => s,
            None => copy_str("default"),
        };
        let i = self.session_slot(key.as_str());
        let m = method.as_str();
        if self.has_handler {
            let id = message.index_copy("id");
            let params = message.index_copy("params");
            let client_version = match params.get_str("protocolVersion") {
                Some(v) => Some(copy_str(v.as_str())),
                None => None,
            };
            let call = if str_eq(m, "initialize") {
                let mut h = self.swap_session(Ghost(key@), i, McpProtocolHandlerImpl::new());
                h.reset_if_initialized();
                let _ = self.swap_session(Ghost(key@), i, h);
                Some(HandlerCall::Initialize { params: params.deep_copy() })
            } else if str_eq(m, "tools/list") {
                Some(HandlerCall::ListTools)
            } else if str_eq(m, "tools/call") {
                match (params.get_str("name"), params.get("arguments")) {
                    (Some(n), Some(a)) => Some(HandlerCall::CallTool { name: copy_str(n.as_str()), arguments: a.deep_copy() }),
                    _ => None,
                }
            } else if str_eq(m, "resources/list") {
                Some(HandlerCall::ListResources)
            } else if str_eq(m, "resources/read") {
                match params.get_str("uri") {
                    Some(u) => Some(HandlerCall::ReadResource { uri: copy_str(u.as_str()) }),
                    None => None,
                }
            } else if str_eq(m, "prompts/list") {
                Some(HandlerCall::ListPrompts)
            } else if str_eq(m, "prompts/get") {
                match params.get_str("name") {
                    Some(n) => Some(HandlerCall::GetPrompt { name: copy_str(n.as_str()), arguments: params.get_copy("arguments") }),
                    None => None,
                }
            } else {
                None
            };
            match call {
                Some(c) => {
                    return EngineStep::Call { pending: Pending { session: key, id, client_version }, call: c };
                },
                None => {},
            }
        }
        let mut h = self.swap_session(Ghost(key@), i, McpProtocolHandlerImpl::new());
        let step = h.handle_message(message);
        let _ = self.swap_session(Ghost(key@), i, h);
        match step {
            BuiltinStep::Reply(Err(e)) => {
                EngineStep::Builtin(BuiltinStep::Reply(Ok(e.to_json_rpc_error(Some(message.index_copy("id"))))))
            },
            other => EngineStep::Builtin(other),
        }
    }
    /// Finishes an `initialize` that the user handler answered. On success the session
    /// is initialized, with the protocol version the client asked for when it gave one.
    pub fn finish_initialize(&mut self, pending: Pending, outcome: Result<Json, String>) -> (r: McpResult<Json>)
        requires
            old(self).wf(),
        ensures
            final(self).wf(),
            final(self).has_handler() == old(self).has_handler(),
            reply_view(r) == custom_reply(pending@.id, outcome_view(outcome)),
            final(self).sessions() == match outcome {
                Ok(_) => initialized_after(old(self).sessions(), pending@),
                Err(_) => old(self).sessions(),
            },
    {
        match outcome {
            Ok(result) => {
                let ghost key = pending.session@;
                let i = self.session_slot(pending.session.as_str());
                let mut h = self.swap_session(Ghost(key), i, McpProtocolHandlerImpl::new());
                h.mark_initialized(pending.client_version);
                let _ = self.swap_session(Ghost(key), i, h);
                Ok(success(pending.id, result))
            },
            Err(msg) => Ok(McpError::Internal(msg).to_json_rpc_error(Some(pending.id))),
        }
    }

    /// Finishes a `tools/call` that the user handler answered.
    pub fn finish_call_tool(&self, pending: Pending, outcome: Result<Json, String>) -> (r: McpResult<Json>)
        ensures
            reply_view(r) == custom_reply(pending@.id, outcome_view(outcome)),
    {
        finish_value(pending.id, outcome)
    }

    /// Finishes a `tools/list` that the user handler answered.
    pub fn finish_list_tools(&self, pending: Pending, outcome: Result<Vec<ToolDefinition>, String>) -> (r: McpResult<Json>)
        ensures
            reply_view(r) == custom_reply(
                pending@.id,
                match outcome {
                    Ok(ts) => Ok(listed("tools"@, Seq::new(ts@.len(), |i: int| tool_view(ts@[i])))),
                    Err(msg) => Err(msg@),
                },
            ),
    {
        match outcome {
            Ok(ts) => {
                let mut items: Vec<Json> = Vec::new();
                let mut i: usize = 0;
                while i < ts.len()
                    invariant
                        i <= ts@.len(),
                        items@.len() == i,
                        forall|k: int| 0 <= k < i ==> (#[trigger] items@[k])@ == tool_view(ts@[k]),
                    decreases ts.len() - i,
                {
                    items.push(ts[i].to_list_entry());
                    i = i + 1;
                }
                assert(items_view(items@) =~= Seq::new(ts@.len(), |k: int| tool_view(ts@[k])));
                Ok(success(pending.id, obj1("tools", array_of(items))))
            },
            Err(msg) => Ok(McpError::Internal(msg).to_json_rpc_error(Some(pending.id))),
        }
    }

    /// Finishes a `resources/list` that the user handler answered.
    pub fn finish_list_resources(&self, pending: Pending, outcome: Result<Vec<ResourceInfo>, String>) -> (r: McpResult<Json>)
        ensures
            reply_view(r) == custom_reply(
                pending@.id,
                match outcome {
                    Ok(rs) => Ok(listed("resources"@, Seq::new(rs@.len(), |i: int| resource_view(rs@[i])))),
                    Err(msg) => Err(msg@),
                },
            ),
    {
        match outcome {
            Ok(rs) => {
                let mut items: Vec<Json> = Vec::new();
                let mut i: usize = 0;
                while i < rs.len()
                    invariant
                        i <= rs@.len(),
                        items@.len() == i,
                        forall|k: int| 0 <= k < i ==> (#[trigger] items@[k])@ == resource_view(rs@[k]),
                    decreases rs.len() - i,
                {
                    items.push(rs[i].to_list_entry());
                    i = i + 1;
                }
                assert(items_view(items@) =~= Seq::new(rs@.len(), |k: int| resource_view(rs@[k])));
                Ok(success(pending.id, obj1("resources", array_of(items))))
            },
            Err(msg) => Ok(McpError::Internal(msg).to_json_rpc_error(Some(pending.id))),
        }
    }

    /// Finishes a `resources/read` that the user handler answered.
    pub fn finish_read_resource(&self, pending: Pending, outcome: Result<ResourceContent, String>) -> (r: McpResult<Json>)
        ensures
            reply_view(r) == custom_reply(
                pending@.id,
                match outcome {
                    Ok(c) => Ok(listed("contents"@, seq![content_view(c)])),
                    Err(msg) => Err(msg@),
                },
            ),
    {
        match outcome {
            Ok(c) => {
                let mut items: Vec<Json> = Vec::new();
                items.push(c.to_list_entry());
                assert(items_view(items@) =~= seq![content_view(c)]);
                Ok(success(pending.id, obj1("contents", array_of(items))))
            },
            Err(msg) => Ok(McpError::Internal(msg).to_json_rpc_error(Some(pending.id))),
        }
    }

    /// Finishes a `prompts/list` that the user handler answered.
    pub fn finish_list_prompts(&self, pending: Pending, outcome: Result<Vec<PromptInfo>, String>) -> (r: McpResult<Json>)
        ensures
            reply_view(r) == custom_reply(
                pending@.id,
                match outcome {
                    Ok(ps) => Ok(listed("prompts"@, Seq::new(ps@.len(), |i: int| prompt_view(ps@[i])))),
                    Err(msg) => Err(msg@),
                },
            ),
    {
        match outcome {
            Ok(ps) => {
                let mut items: Vec<Json> = Vec::new();
                let mut i: usize = 0;
                while i < ps.len()
                    invariant
                        i <= ps@.len(),
                        items@.len() == i,
                        forall|k: int| 0 <= k < i ==> (#[trigger] items@[k])@ == prompt_view(ps@[k]),
                    decreases ps.len() - i,
                {
                    items.push(ps[i].to_list_entry());
                    i = i + 1;
                }
                assert(items_view(items@) =~= Seq::new(ps@.len(), |k: int| prompt_view(ps@[k])));
                Ok(success(pending.id, obj1("prompts", array_of(items))))
            },
            Err(msg) => Ok(McpError::Internal(msg).to_json_rpc_error(Some(pending.id))),
        }
    }

    /// Finishes a `prompts/get` that the user handler answered.
    pub fn finish_get_prompt(&self, pending: Pending, outcome: Result<PromptContent, String>) -> (r: McpResult<Json>)
        ensures
            reply_view(r) == custom_reply(
                pending@.id,
                match outcome {
                    Ok(c) => Ok(listed("messages"@, Seq::new(c.messages@.len(), |i: int| message_view(c.messages@[i])))),
                    Err(msg) => Err(msg@),
                },
            ),
    {
        match outcome {
            Ok(c) => {
                let mut items: Vec<Json> = Vec::new();
                let mut i: usize = 0;
                while i < c.messages.len()
                    invariant
                        i <= c.messages@.len(),
                        items@.len() == i,
                        forall|k: int| 0 <= k < i ==> (#[trigger] items@[k])@ == message_view(c.messages@[k]),
                    decreases c.messages.len() - i,
                {
                    items.push(c.messages[i].to_list_entry());
                    i = i + 1;
                }
                assert(items_view(items@) =~= Seq::new(c.messages@.len(), |k: int| message_view(c.messages@[k])));
                Ok(success(pending.id, obj1("messages", array_of(items))))
            },
            Err(msg) => Ok(McpError::Internal(msg).to_json_rpc_error(Some(pending.id))),
        }
    }

    /// Finishes a built-in `tools/list` with the built-in tool list.
    pub fn finish_builtin_tools_list(&self, id: Option<Json>, tools: Json) -> (r: McpResult<Json>)
        ensures
            r matches Ok(j) && j@ == crate::protocol_impl::reply_ok(opt_json(id), tools@),
    {
        McpProtocolHandlerImpl::new().finish_tools_list(id, tools)
    }

    /// Finishes a built-in `tools/call` with the outcome of the built-in tool.
    pub fn finish_builtin_tool_call(&self, id: Option<Json>, name: &str, outcome: Result<Json, String>) -> (r: McpResult<Json>)
        ensures
            r matches Ok(j) && j@ == match outcome {
                Ok(v) => crate::protocol_impl::reply_ok(opt_json(id), v@),
                Err(msg) => crate::protocol_impl::reply_err(
                    opt_json(id),
                    crate::protocol_impl::tool_error(name@, msg@).0,
                    crate::protocol_impl::tool_error(name@, msg@).1,
                ),
            },
    {
        McpProtocolHandlerImpl::new().finish_tool_call(id, name, outcome)
    }
}

impl Default for McpProtocolEngine {
    fn default() -> (r: Self)
        ensures
            r.wf(),
            r.sessions() == Map::<Seq<char>, HandlerState>::empty(),
            !r.has_handler(),
    {
        McpProtocolEngine::new()
    }
}

/// A JSON-RPC success response: `{"jsonrpc": "2.0", "id", "result"}`.
fn success(id: Json, result: Json) -> (r: Json)
    ensures
        r@ == success_view(id@, result@),
{
    obj3("jsonrpc", Json::string("2.0"), "id", id, "result", result)
}

/// The answer to a user handler's outcome that carries a JSON value.
fn finish_value(id: Json, outcome: Result<Json, String>) -> (r: McpResult<Json>)
    ensures
        reply_view(r) == custom_reply(id@, outcome_view(outcome)),
{
    match outcome {
        Ok(v) => Ok(success(id, v)),
        Err(msg) => Ok(McpError::Internal(msg).to_json_rpc_error(Some(id))),
    }
}

} // verus!

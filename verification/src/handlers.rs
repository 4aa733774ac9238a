//! A minimal message handler for a single connection: initialization, cancellation,
//! and the built-in tools.

use vstd::prelude::*;
use crate::json::{Json, JsonV, empty_object};
use crate::logging::McpDebugLogger;
use crate::protocol::{McpProtocol, success_view, initialize_view, default_protocol_version, package_version};
use crate::text::{append_str, copy_str, str_eq};

verus! {

broadcast use vstd::string::group_string_axioms;

/// What handling one message produced.
pub enum HandlersStep {
    /// Handling is finished: the response, or the text of the error.
    Done(Result<Json, String>),
    /// The built-in tool list is needed to answer request `id`.
    ListTools { id: Json },
    /// The built-in tool `name` must run on `arguments` to answer request `id`.
    CallTool { id: Json, name: String, arguments: Json },
}

/// The value of a step.
pub enum HandlersOutcome {
    Done(Result<JsonV, Seq<char>>),
    ListTools(JsonV),
    CallTool(JsonV, Seq<char>, JsonV),
}

impl View for HandlersStep {
    type V = HandlersOutcome;

    open spec fn view(&self) -> HandlersOutcome {
        match *self {
            HandlersStep::Done(Ok(j)) => HandlersOutcome::Done(Ok(j@)),
            HandlersStep::Done(Err(e)) => HandlersOutcome::Done(Err(e@)),
            HandlersStep::ListTools { id } => HandlersOutcome::ListTools(id@),
            HandlersStep::CallTool { id, name, arguments } => HandlersOutcome::CallTool(id@, name@, arguments@),
        }
    }
}

/// The initialize result of a server with the standard identity.
pub open spec fn standard_initialize() -> JsonV {
    initialize_view(default_protocol_version(), "mcp-server"@, package_version())
}

/// How a message is handled: by its method (empty when it has none); the id and
/// parameters are `null` when absent.
pub open spec fn handlers_step(m: JsonV) -> HandlersOutcome {
    let method = match m.index("method"@).as_str() {
        Some(s) => s,
        None => Seq::empty(),
    };
    let id = m.index("id"@);
    let params = m.index("params"@);
    if method == "initialize"@ {
        HandlersOutcome::Done(Ok(success_view(id, standard_initialize())))
    } else if method == "tools/list"@ {
        HandlersOutcome::ListTools(id)
    } else if method == "tools/call"@ {
        HandlersOutcome::CallTool(
            id,
            match params.index("name"@).as_str() {
                Some(s) => s,
                None => Seq::empty(),
            },
            params.index("arguments"@),
        )
    } else if method == "notifications/cancel"@ {
        HandlersOutcome::Done(Ok(success_view(id, JsonV::Object(Seq::empty()))))
    } else {
        HandlersOutcome::Done(Err("Unknown method: "@ + method))
    }
}

/// Handles the messages of one connection.
pub struct McpHandlers {
    logger: McpDebugLogger,
    protocol: McpProtocol,
}

impl McpHandlers {
    /// Every handler answers with the standard server identity.
    #[verifier::type_invariant]
    spec fn standard(&self) -> bool {
        &&& self.protocol.spec_version() == default_protocol_version()
        &&& self.protocol.spec_server_name() == "mcp-server"@
        &&& self.protocol.spec_server_version() == package_version()
    }

    /// The logger this handler logs through.
    pub closed spec fn spec_logger(&self) -> McpDebugLogger {
        self.logger
    }

    /// A handler that logs through `logger`.
    pub fn new(logger: McpDebugLogger) -> (r: Self)
        ensures
            r.spec_logger() == logger,
    {
        McpHandlers { logger, protocol: McpProtocol::new() }
    }

    /// Handles one message.
    pub fn handle_mcp_message(&self, message: &Json) -> (r: HandlersStep)
        ensures
            r@ == handlers_step(message@),
    {
        proof {
            use_type_invariant(self);
        }
        let method = match message.get_str("method") {
            Some(m) => copy_str(m.as_str()),
            None => String::new(),
        };
        let id = message.index_copy("id");
        let m = method.as_str();
        if str_eq(m, "initialize") {
            let params = message.index_copy("params");
            let result = self.handle_initialize(&params);
            HandlersStep::Done(Ok(self.protocol.create_success_response(id, result)))
        } else if str_eq(m, "tools/list") {
            HandlersStep::ListTools { id }
        } else if str_eq(m, "tools/call") {
            let params = message.index_copy("params");
            let name = match params.get_str("name") {
                Some(n) => copy_str(n.as_str()),
                None => String::new(),
            };
            HandlersStep::CallTool { id, name, arguments: params.index_copy("arguments") }
        } else if str_eq(m, "notifications/cancel") {
            let params = message.index_copy("params");
            let result = self.handle_cancel(&params);
            HandlersStep::Done(Ok(self.protocol.create_success_response(id, result)))
        } else {
            let mut e = copy_str("Unknown method: ");
            append_str(&mut e, m);
            HandlersStep::Done(Err(e))
        }
    }

    /// The result of an initialize request: the protocol's description.
    pub fn handle_initialize(&self, params: &Json) -> (r: Json)
        ensures
            r@ == standard_initialize(),
    {
        proof {
            use_type_invariant(self);
        }
        self.protocol.create_initialize_response()
    }

    /// The result of a cancellation: an empty object.
    pub fn handle_cancel(&self, params: &Json) -> (r: Json)
        ensures
            r@ == JsonV::Object(Seq::empty()),
    {
        empty_object()
    }

    /// Finishes a `tools/list` with the built-in tool list.
    pub fn finish_tools_list(&self, id: Json, tools: Json) -> (r: Result<Json, String>)
        ensures
            r matches Ok(j) && j@ == success_view(id@, tools@),
    {
        Ok(self.protocol.create_success_response(id, tools))
    }

    /// Finishes a `tools/call` with the tool's result or the text of its failure.
    pub fn finish_tool_call(&self, id: Json, outcome: Result<Json, String>) -> (r: Result<Json, String>)
        ensures
            match outcome {
                Ok(v) => r matches Ok(j) && j@ == success_view(id@, v@),
                Err(e) => r matches Err(t) && t@ == e@,
            },
    {
        match outcome {
            Ok(v) => Ok(self.protocol.create_success_response(id, v)),
            Err(e) => Err(e),
        }
    }
}

} // verus!

//! MCP protocol versioning, server information and JSON-RPC response envelopes.

use vstd::prelude::*;
use crate::json::{Json, JsonV, obj1, obj2, obj3, empty_object};
use crate::text::copy_str;

verus! {

broadcast use vstd::string::group_string_axioms;

/// The protocol version this server speaks by default.
pub open spec fn default_protocol_version() -> Seq<char> {
    "2025-06-18"@
}

/// The version of this server package.
pub open spec fn package_version() -> Seq<char> {
    "0.1.0"@
}

/// A JSON-RPC success response: `{"jsonrpc": "2.0", "id", "result"}`.
pub open spec fn success_view(id: JsonV, result: JsonV) -> JsonV {
    JsonV::Object(seq![("jsonrpc"@, JsonV::Str("2.0"@)), ("id"@, id), ("result"@, result)])
}

/// A JSON-RPC error response with the id first: `{"jsonrpc": "2.0", "id", "error": {"code", "message"}}`.
pub open spec fn error_view(id: JsonV, code: int, message: Seq<char>) -> JsonV {
    JsonV::Object(
        seq![
            ("jsonrpc"@, JsonV::Str("2.0"@)),
            ("id"@, id),
            ("error"@, JsonV::Object(seq![("code"@, JsonV::Int(code)), ("message"@, JsonV::Str(message))])),
        ],
    )
}

/// The initialize result of the protocol description:
/// `{"protocolVersion", "capabilities": {"tools": {}}, "serverInfo": {"name", "version"}}`.
pub open spec fn initialize_view(version: Seq<char>, name: Seq<char>, server_version: Seq<char>) -> JsonV {
    JsonV::Object(
        seq![
            ("protocolVersion"@, JsonV::Str(version)),
            ("capabilities"@, JsonV::Object(seq![("tools"@, JsonV::Object(Seq::empty()))])),
            ("serverInfo"@, JsonV::Object(seq![("name"@, JsonV::Str(name)), ("version"@, JsonV::Str(server_version))])),
        ],
    )
}

/// Protocol version and server identity.
pub struct McpProtocol {
    version: String,
    server_name: String,
    server_version: String,
}

impl McpProtocol {
    pub closed spec fn spec_version(&self) -> Seq<char> {
        self.version@
    }

    pub closed spec fn spec_server_name(&self) -> Seq<char> {
        self.server_name@
    }

    pub closed spec fn spec_server_version(&self) -> Seq<char> {
        self.server_version@
    }

    /// The default protocol: version 2025-06-18, server "mcp-server" at the package version.
    pub fn new() -> (r: Self)
        ensures
            r.spec_version() == default_protocol_version(),
            r.spec_server_name() == "mcp-server"@,
            r.spec_server_version() == package_version(),
    {
        McpProtocol {
            version: copy_str("2025-06-18"),
            server_name: copy_str("mcp-server"),
            server_version: copy_str("0.1.0"),
        }
    }

    /// The protocol version.
    pub fn version(&self) -> (r: &str)
        ensures
            r@ == self.spec_version(),
    {
        self.version.as_str()
    }

    /// The server name.
    pub fn server_name(&self) -> (r: &str)
        ensures
            r@ == self.spec_server_name(),
    {
        self.server_name.as_str()
    }

    /// The server version.
    pub fn server_version(&self) -> (r: &str)
        ensures
            r@ == self.spec_server_version(),
    {
        self.server_version.as_str()
    }

    /// The result of an initialize request, as this protocol describes itself.
    pub fn create_initialize_response(&self) -> (r: Json)
        ensures
            r@ == initialize_view(self.spec_version(), self.spec_server_name(), self.spec_server_version()),
    {
        let caps = obj1("tools", empty_object());
        let info = obj2(
            "name",
            Json::string(self.server_name.as_str()),
            "version",
            Json::string(self.server_version.as_str()),
        );
        obj3("protocolVersion", Json::string(self.version.as_str()), "capabilities", caps, "serverInfo", info)
    }

    /// A JSON-RPC error response answering `id`.
    pub fn create_error_response(&self, id: Json, code: i32, message: &str) -> (r: Json)
        ensures
            r@ == error_view(id@, code as int, message@),
    {
        let err = obj2("code", Json::Int(code as i64), "message", Json::string(message));
        obj3("jsonrpc", Json::string("2.0"), "id", id, "error", err)
    }

    /// A JSON-RPC success response answering `id`.
    pub fn create_success_response(&self, id: Json, result: Json) -> (r: Json)
        ensures
            r@ == success_view(id@, result@),
    {
        obj3("jsonrpc", Json::string("2.0"), "id", id, "result", result)
    }
}

} // verus!

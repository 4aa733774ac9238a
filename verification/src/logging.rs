//! Identifiers of connections and requests, and the texts of the server's log lines.

use vstd::prelude::*;
use crate::clock::{Elapsed, duration_debug, duration_debug_text, instant_elapsed, instant_now, unix_millis_now};
use crate::text::{append_str, copy_str, dec_text, hex_padded, hex_text, push_decimal, push_hex, push_hex_padded};
use std::time::Instant;

verus! {

broadcast use vstd::string::group_string_axioms;

/// Whether a text has the form of a hyphenated lowercase version-4 UUID:
/// `xxxxxxxx-xxxx-4xxx-xxxx-xxxxxxxxxxxx` with lowercase hexadecimal digits.
pub open spec fn uuid_v4_text(s: Seq<char>) -> bool {
    &&& s.len() == 36
    &&& forall|i: int|
        0 <= i < 36 ==> if i == 8 || i == 13 || i == 18 || i == 23 {
            s[i] == '-'
        } else {
            ('0' <= #[trigger] s[i] <= '9') || ('a' <= s[i] <= 'f')
        }
    &&& s[14] == '4'
}

/// `Uuid::new_v4().to_string()`: a random version-4 UUID in its hyphenated lowercase
/// form (`Display` writes `LowerHex`, which is the hyphenated form). Which UUID is up
/// to chance.
#[verifier::external_body]
fn random_uuid_text() -> (r: String)
    ensures
        uuid_v4_text(r@),
{
    uuid::Uuid::new_v4().to_string()
}

/// The id of one client connection: a random UUID.
#[derive(Debug)]
pub struct McpConnectionId(pub String);

impl McpConnectionId {
    /// A new connection id, a random version-4 UUID.
    pub fn new() -> (r: Self)
        ensures
            uuid_v4_text(r.0@),
    {
        McpConnectionId(random_uuid_text())
    }

    /// The text of the id.
    pub fn to_string(&self) -> (r: String)
        ensures
            r@ == self.0@,
    {
        copy_str(self.0.as_str())
    }
}

impl Default for McpConnectionId {
    fn default() -> (r: Self)
        ensures
            uuid_v4_text(r.0@),
    {
        McpConnectionId::new()
    }
}

/// A request id: the clock's milliseconds in hexadecimal, `-`, and the count modulo
/// 2^16 in at least four hexadecimal digits.
pub open spec fn request_id_text(millis: u64, count: u64) -> Seq<char> {
    hex_text(millis as nat) + "-"@ + hex_padded((count % 0x10000) as nat, 4)
}

/// Makes request ids from the clock and a count of the ids made so far.
pub struct RequestIdGenerator {
    next: u64,
}

impl RequestIdGenerator {
    /// The count the next id carries.
    pub closed spec fn next_count(&self) -> u64 {
        self.next
    }

    /// A generator whose first id carries count 1.
    pub fn new() -> (r: Self)
        ensures
            r.next_count() == 1,
    {
        RequestIdGenerator { next: 1 }
    }

    /// A new request id; the count advances by one (modulo 2^64).
    pub fn generate_request_id(&mut self) -> (r: String)
        ensures
            exists|millis: u64| r@ == request_id_text(millis, old(self).next_count()),
            final(self).next_count() == if old(self).next_count() == u64::MAX {
                0
            } else {
                (old(self).next_count() + 1) as u64
            },
    {
        let millis = truncate_millis(unix_millis_now());
        let count = self.next;
        self.next = self.next.wrapping_add(1);
        let r = format_request_id(millis, count);
        assert(r@ == request_id_text(millis, old(self).next_count()));
        r
    }
}

/// The request id made at clock reading `millis` (milliseconds) with count `count`.
pub fn format_request_id(millis: u64, count: u64) -> (r: String)
    ensures
        r@ == request_id_text(millis, count),
{
    let mut r = String::new();
    push_hex(&mut r, millis);
    append_str(&mut r, "-");
    push_hex_padded(&mut r, count % 0x10000, 4);
    assert(r@ =~= request_id_text(millis, count));
    r
}

/// The low 64 bits of a millisecond count.
fn truncate_millis(m: u128) -> (r: u64)
    ensures
        r == m % 0x1_0000_0000_0000_0000,
{
    (m % 0x1_0000_0000_0000_0000) as u64
}

/// The prefix of every log line of a connection.
pub open spec fn tag(id: Seq<char>) -> Seq<char> {
    "[MCP:"@ + id + "] "@
}

/// Formats the log lines of one connection.
pub struct McpDebugLogger {
    connection_id: McpConnectionId,
    start_time: Instant,
}

impl McpDebugLogger {
    /// The id of the connection.
    pub closed spec fn id(&self) -> Seq<char> {
        self.connection_id.0@
    }

    /// A logger for `connection_id`, started now.
    pub fn new(connection_id: McpConnectionId) -> (r: Self)
        ensures
            r.id() == connection_id.0@,
    {
        McpDebugLogger { connection_id, start_time: instant_now() }
    }

    /// The connection id.
    pub fn connection_id(&self) -> (r: &McpConnectionId)
        ensures
            r.0@ == self.id(),
    {
        &self.connection_id
    }

    fn start(&self) -> (r: String)
        ensures
            r@ == tag(self.id()),
    {
        let mut r = copy_str("[MCP:");
        append_str(&mut r, self.connection_id.0.as_str());
        append_str(&mut r, "] ");
        r
    }

    /// The line for a WebSocket upgrade.
    pub fn fmt_connection_upgrade(&self) -> (r: String)
        ensures
            r@ == tag(self.id()) + "🔌 WebSocket connection upgraded"@,
    {
        let mut r = self.start();
        append_str(&mut r, "🔌 WebSocket connection upgraded");
        r
    }

    /// The line for a received message.
    pub fn fmt_message_received(&self, message_type: &str, message_size: usize) -> (r: String)
        ensures
            r@ == tag(self.id()) + "📥 Received "@ + message_type@ + " message ("@ + dec_text(message_size as nat)
                + " bytes)"@,
    {
        let mut r = self.start();
        append_str(&mut r, "📥 Received ");
        append_str(&mut r, message_type);
        append_str(&mut r, " message (");
        push_decimal(&mut r, message_size as u128);
        append_str(&mut r, " bytes)");
        r
    }

    /// The line for a parsed message.
    pub fn fmt_message_parsed(&self, method: &str, id: &str) -> (r: String)
        ensures
            r@ == tag(self.id()) + "🔍 Parsed message - Method: "@ + method@ + ", ID: "@ + id@,
    {
        let mut r = self.start();
        append_str(&mut r, "🔍 Parsed message - Method: ");
        append_str(&mut r, method);
        append_str(&mut r, ", ID: ");
        append_str(&mut r, id);
        r
    }

    /// The line for the start of handling a method.
    pub fn fmt_message_handling_start(&self, method: &str) -> (r: String)
        ensures
            r@ == tag(self.id()) + "⚙️  Starting to handle method: "@ + method@,
    {
        let mut r = self.start();
        append_str(&mut r, "⚙️  Starting to handle method: ");
        append_str(&mut r, method);
        r
    }

    /// The line for a method handled in `duration`.
    pub fn fmt_message_handling_success(&self, method: &str, duration: Elapsed) -> (r: String)
        requires
            duration.valid(),
        ensures
            r@ == tag(self.id()) + "✅ Successfully handled "@ + method@ + " in "@ + duration_debug_text(
                duration.secs,
                duration.nanos,
            ),
    {
        let mut r = self.start();
        append_str(&mut r, "✅ Successfully handled ");
        append_str(&mut r, method);
        append_str(&mut r, " in ");
        append_str(&mut r, duration_debug(duration).as_str());
        r
    }

    /// The line for a method that failed after `duration`.
    pub fn fmt_message_handling_error(&self, method: &str, error: &str, duration: Elapsed) -> (r: String)
        requires
            duration.valid(),
        ensures
            r@ == tag(self.id()) + "❌ Failed to handle "@ + method@ + " after "@ + duration_debug_text(
                duration.secs,
                duration.nanos,
            ) + ": "@ + error@,
    {
        let mut r = self.start();
        append_str(&mut r, "❌ Failed to handle ");
        append_str(&mut r, method);
        append_str(&mut r, " after ");
        append_str(&mut r, duration_debug(duration).as_str());
        append_str(&mut r, ": ");
        append_str(&mut r, error);
        r
    }

    /// The line for a sent response.
    pub fn fmt_response_sent(&self, response_size: usize) -> (r: String)
        ensures
            r@ == tag(self.id()) + "📤 Sent response ("@ + dec_text(response_size as nat) + " bytes)"@,
    {
        let mut r = self.start();
        append_str(&mut r, "📤 Sent response (");
        push_decimal(&mut r, response_size as u128);
        append_str(&mut r, " bytes)");
        r
    }

    /// The line for a response that could not be sent.
    pub fn fmt_response_error(&self, error: &str) -> (r: String)
        ensures
            r@ == tag(self.id()) + "💥 Failed to send response: "@ + error@,
    {
        let mut r = self.start();
        append_str(&mut r, "💥 Failed to send response: ");
        append_str(&mut r, error);
        r
    }

    /// The line for a closed connection, with the time since the logger started; that
    /// time is whatever the clock gives.
    pub fn fmt_connection_closed(&self) -> (r: String)
        ensures
            exists|d: Elapsed|
                d.valid() && r@ == tag(self.id()) + "🔌 Connection closed after "@ + duration_debug_text(
                    d.secs,
                    d.nanos,
                ),
    {
        let d = self.elapsed();
        self.fmt_connection_closed_after(d)
    }

    /// The time since the logger started, whatever the clock gives.
    pub fn elapsed(&self) -> (r: Elapsed)
        ensures
            r.valid(),
    {
        instant_elapsed(&self.start_time)
    }

    /// The line for a connection closed `duration` after the logger started.
    pub fn fmt_connection_closed_after(&self, duration: Elapsed) -> (r: String)
        requires
            duration.valid(),
        ensures
            r@ == tag(self.id()) + "🔌 Connection closed after "@ + duration_debug_text(duration.secs, duration.nanos),
    {
        let mut r = self.start();
        append_str(&mut r, "🔌 Connection closed after ");
        append_str(&mut r, duration_debug(duration).as_str());
        r
    }

    /// The line for a message that could not be parsed.
    pub fn fmt_parse_error(&self, error: &str, raw_message: &str) -> (r: String)
        ensures
            r@ == tag(self.id()) + "🚫 Failed to parse message: "@ + error@ + " | Raw: "@ + raw_message@,
    {
        let mut r = self.start();
        append_str(&mut r, "🚫 Failed to parse message: ");
        append_str(&mut r, error);
        append_str(&mut r, " | Raw: ");
        append_str(&mut r, raw_message);
        r
    }

    /// The line for an unknown method.
    pub fn fmt_unknown_method(&self, method: &str) -> (r: String)
        ensures
            r@ == tag(self.id()) + "❓ Unknown MCP method requested: "@ + method@,
    {
        let mut r = self.start();
        append_str(&mut r, "❓ Unknown MCP method requested: ");
        append_str(&mut r, method);
        r
    }

    /// The line for an unknown tool.
    pub fn fmt_unknown_tool(&self, tool: &str) -> (r: String)
        ensures
            r@ == tag(self.id()) + "🛠️  Unknown tool requested: "@ + tool@,
    {
        let mut r = self.start();
        append_str(&mut r, "🛠️  Unknown tool requested: ");
        append_str(&mut r, tool);
        r
    }

    /// The line for a tool call.
    pub fn fmt_tool_call(&self, tool: &str, args: &str) -> (r: String)
        ensures
            r@ == tag(self.id()) + "🛠️  Tool call - "@ + tool@ + " with args: "@ + args@,
    {
        let mut r = self.start();
        append_str(&mut r, "🛠️  Tool call - ");
        append_str(&mut r, tool);
        append_str(&mut r, " with args: ");
        append_str(&mut r, args);
        r
    }

    /// The line for the creation of a server instance.
    pub fn fmt_server_creation(&self) -> (r: String)
        ensures
            r@ == tag(self.id()) + "🏗️  Creating MCP server instance"@,
    {
        let mut r = self.start();
        append_str(&mut r, "🏗️  Creating MCP server instance");
        r
    }

    /// The line for a server that could not be created.
    pub fn fmt_server_creation_error(&self, error: &str) -> (r: String)
        ensures
            r@ == tag(self.id()) + "💥 Failed to create MCP server: "@ + error@,
    {
        let mut r = self.start();
        append_str(&mut r, "💥 Failed to create MCP server: ");
        append_str(&mut r, error);
        r
    }

    /// The line for the start of the message loop.
    pub fn fmt_connection_start(&self) -> (r: String)
        ensures
            r@ == tag(self.id()) + "🔄 Starting MCP message processing loop"@,
    {
        let mut r = self.start();
        append_str(&mut r, "🔄 Starting MCP message processing loop");
        r
    }
}

/// The line for the server starting on `port`.
pub fn fmt_mcp_server_startup(port: u16) -> (r: String)
    ensures
        r@ == "🚀 Starting MCP Server on port "@ + dec_text(port as nat),
{
    let mut r = copy_str("🚀 Starting MCP Server on port ");
    push_decimal(&mut r, port as u128);
    r
}

/// The line for the server listening on `addr`.
pub fn fmt_mcp_server_ready(addr: &str) -> (r: String)
    ensures
        r@ == "✅ MCP Server ready and listening on "@ + addr@,
{
    let mut r = copy_str("✅ MCP Server ready and listening on ");
    append_str(&mut r, addr);
    r
}

/// The line for the server shutting down.
pub fn fmt_mcp_server_shutdown() -> (r: String)
    ensures
        r@ == "🛑 MCP Server shutting down"@,
{
    copy_str("🛑 MCP Server shutting down")
}

} // verus!

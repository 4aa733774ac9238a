//! HTTP transport: how a JSON-RPC request that arrives over HTTP is checked, which
//! session it belongs to, and how its reply is framed.
//!
//! Handling a request is two steps around the engine: [`plan_http_request`] decides
//! whether the request is refused at once or handled, and in which session;
//! [`finish_http_exchange`] frames the engine's result as the HTTP reply.

pub mod session;
pub mod validation;
pub mod response;

use vstd::prelude::*;
use crate::clock::unix_millis_now;
use crate::error::{McpResult, json_rpc_error, json_rpc_error_view, error_message_of};
use crate::json::{Json, JsonV, opt_chars, opt_view, obj4, opt_string};
use crate::text::{is_space, lemma_find_char_at, lemma_trimmed_ends, lemma_trim_noop, lemma_dec_text_injective,
    append_str, chars_of, contains, contains_str, copy_str, dec_text, find_char, find_char_from,
    lemma_find_char, lowercase_text, matches_at, push_decimal, starts_with, str_eq, string_of_range, to_lowercase,
    trim, trim_bounds};

verus! {

broadcast use vstd::string::group_string_axioms;

/// The session id in the first field of `cookie[from..]` (fields are separated by `;`)
/// that starts with `mcp_session=` once trimmed and holds a non-empty value after it;
/// the value is trimmed.
pub open spec fn legacy_cookie_session(s: Seq<char>, from: int) -> Option<Seq<char>>
    decreases s.len() - from,
    when 0 <= from <= s.len()
{
    let end = find_char(s, ';', from);
    let field = trim(s.subrange(from, end));
    if starts_with(field, "mcp_session="@) && trim(field.subrange(12, field.len() as int)).len() > 0 {
        Some(trim(field.subrange(12, field.len() as int)))
    } else if end >= s.len() {
        None
    } else {
        proof {
            lemma_find_char(s, ';', from);
        }
        legacy_cookie_session(s, end + 1)
    }
}

/// The session id of an optional `Cookie` header.
pub open spec fn legacy_header_session(cookie: Option<Seq<char>>) -> Option<Seq<char>> {
    match cookie {
        Some(c) => legacy_cookie_session(c, 0),
        None => None,
    }
}

/// The session id of a `Cookie` header: the trimmed, non-empty value of its first
/// `mcp_session` field that has one.
pub fn extract_session_id_from_cookie(cookie: &Option<String>) -> (r: Option<String>)
    ensures
        opt_chars(r) == legacy_header_session(opt_chars(*cookie)),
{
    let c = match cookie {
        Some(c) => c,
        None => {
            return None;
        },
    };
    let chars = chars_of(c.as_str());
    let prefix = chars_of("mcp_session=");
    proof {
        reveal_strlit("mcp_session=");
    }
    let mut from: usize = 0;
    loop
        invariant
            from <= chars@.len(),
            opt_chars(*cookie) == Some(chars@),
            prefix@ == "mcp_session="@,
            prefix@.len() == 12,
            legacy_cookie_session(chars@, 0) == legacy_cookie_session(chars@, from as int),
        decreases chars@.len() - from,
    {
        let end = find_char_from(&chars, ';', from);
        proof {
            lemma_find_char(chars@, ';', from as int);
        }
        let (a, b) = trim_bounds(&chars, from, end);
        let ghost field = trim(chars@.subrange(from as int, end as int));
        if b - a >= prefix.len() && matches_at(&chars, &prefix, a) {
            assert(field.subrange(0, 12) =~= chars@.subrange(a as int, a + 12));
            let (va, vb) = trim_bounds(&chars, a + 12, b);
            assert(field.subrange(12, field.len() as int) =~= chars@.subrange(a + 12, b as int));
            if vb > va {
                return Some(string_of_range(&chars, va, vb));
            }
        } else {
            proof {
                if starts_with(field, "mcp_session="@) {
                    assert(field.subrange(0, 12) =~= chars@.subrange(a as int, a + 12));
                }
            }
        }
        if end >= chars.len() {
            return None;
        }
        from = end + 1;
    }
}

/// The session a request is handled in: `initialize` and requests without a session
/// cookie use the default HTTP session.
pub open spec fn effective_session_view(method: Seq<char>, session_id: Option<Seq<char>>) -> Seq<char> {
    if method == "initialize"@ || session_id is None {
        "http_default_session"@
    } else {
        session_id->0
    }
}

/// The session a request is handled in.
pub fn effective_session_id(method: &str, session_id: &Option<String>) -> (r: String)
    ensures
        r@ == effective_session_view(method@, opt_chars(*session_id)),
{
    if str_eq(method, "initialize") {
        return copy_str("http_default_session");
    }
    match session_id {
        Some(s) => copy_str(s.as_str()),
        None => copy_str("http_default_session"),
    }
}

/// Whether a request comes from the Cursor editor, by its headers.
pub open spec fn cursor_client_view(content_type: Seq<char>, accept: Seq<char>, cookie: Option<Seq<char>>) -> bool {
    contains(content_type, "Cursor"@) || contains(accept, "Cursor"@) || (cookie matches Some(c) && contains(
        c,
        "Cursor"@,
    ))
}

/// Whether a request comes from the Cursor editor, by its headers.
pub fn detect_cursor_client(content_type: &str, accept: &str, cookie: &Option<String>) -> (r: bool)
    ensures
        r == cursor_client_view(content_type@, accept@, opt_chars(*cookie)),
{
    contains_str(content_type, "Cursor") || contains_str(accept, "Cursor") || match cookie {
        Some(c) => contains_str(c.as_str(), "Cursor"),
        None => false,
    }
}

/// Whether a client can take a streamed reply: it accepts an event stream, or asks to
/// keep the connection alive or to upgrade it.
pub open spec fn streaming_view(accept: Seq<char>, connection: Seq<char>) -> bool {
    contains(accept, "text/event-stream"@) || contains(lowercase_text(connection), "keep-alive"@) || contains(
        lowercase_text(connection),
        "upgrade"@,
    )
}

/// Whether a client can take a streamed reply.
pub fn supports_streaming(accept: &str, connection: &str) -> (r: bool)
    ensures
        r == streaming_view(accept@, connection@),
{
    let lower = to_lowercase(connection);
    contains_str(accept, "text/event-stream") || contains_str(lower.as_str(), "keep-alive") || contains_str(
        lower.as_str(),
        "upgrade",
    )
}

/// The progress token of a request: `params._meta.progressToken`.
pub open spec fn progress_token_view(message: JsonV) -> Option<JsonV> {
    match message.get("params"@) {
        Some(p) => match p.get("_meta"@) {
            Some(m) => m.get("progressToken"@),
            None => None,
        },
        None => None,
    }
}

/// The progress token of a request, when it has one.
pub fn progress_token(message: &Json) -> (r: Option<Json>)
    ensures
        crate::json::opt_json(r) == progress_token_view(message@),
{
    match message.get("params") {
        Some(p) => match p.get("_meta") {
            Some(m) => m.get_copy("progressToken"),
            None => None,
        },
        None => None,
    }
}

/// A progress notification: how far the handling of the request with `progress_token` is.
/// Numbers are held as JSON numbers.
#[derive(Debug)]
pub struct ProgressNotification {
    pub progress_token: Json,
    pub progress: Json,
    pub total: Option<Json>,
    pub message: Option<String>,
}

/// The JSON-RPC notification of a progress report.
pub open spec fn progress_view(token: JsonV, progress: JsonV, total: JsonV, message: JsonV) -> JsonV {
    JsonV::Object(
        seq![
            ("jsonrpc"@, JsonV::Str("2.0"@)),
            ("method"@, JsonV::Str("notifications/progress"@)),
            (
                "params"@,
                JsonV::Object(
                    seq![
                        ("progressToken"@, token),
                        ("progress"@, progress),
                        ("total"@, total),
                        ("message"@, message),
                    ],
                ),
            ),
        ],
    )
}

impl ProgressNotification {
    /// The JSON-RPC form of this notification; absent values are `null`.
    pub fn to_json_rpc(&self) -> (r: Json)
        ensures
            r@ == progress_view(
                self.progress_token@,
                self.progress@,
                opt_view(crate::json::opt_json(self.total)),
                crate::json::opt_str_view(opt_chars(self.message)),
            ),
    {
        let total = match &self.total {
            Some(t) => t.deep_copy(),
            None => Json::Null,
        };
        let params = obj4(
            "progressToken",
            self.progress_token.deep_copy(),
            "progress",
            self.progress.deep_copy(),
            "total",
            total,
            "message",
            opt_string(&self.message),
        );
        crate::json::obj3(
            "jsonrpc",
            Json::string("2.0"),
            "method",
            Json::string("notifications/progress"),
            "params",
            params,
        )
    }
}

/// An HTTP reply: its status, its body, and its headers. The body is one JSON document,
/// or, when `line_delimited`, several, each followed by a newline. A `Content-Length`
/// header with the body's length is added when `content_length` is set.
#[derive(Debug)]
pub struct HttpReply {
    pub status: u16,
    pub documents: Vec<Json>,
    pub line_delimited: bool,
    pub headers: Vec<(String, String)>,
    pub content_length: bool,
}

/// The value of an HTTP reply.
pub struct HttpReplyV {
    pub status: int,
    pub documents: Seq<JsonV>,
    pub line_delimited: bool,
    pub headers: Seq<(Seq<char>, Seq<char>)>,
    pub content_length: bool,
}

/// The view of a header list.
pub open spec fn headers_view(h: Seq<(String, String)>) -> Seq<(Seq<char>, Seq<char>)> {
    Seq::new(h.len(), |i: int| (h[i].0@, h[i].1@))
}

impl View for HttpReply {
    type V = HttpReplyV;

    open spec fn view(&self) -> HttpReplyV {
        HttpReplyV {
            status: self.status as int,
            documents: crate::json::items_view(self.documents@),
            line_delimited: self.line_delimited,
            headers: headers_view(self.headers@),
            content_length: self.content_length,
        }
    }
}

/// A JSON reply with one document and the given status.
pub open spec fn json_reply_view(status: int, body: JsonV) -> HttpReplyV {
    HttpReplyV {
        status,
        documents: seq![body],
        line_delimited: false,
        headers: seq![("content-type"@, "application/json"@)],
        content_length: false,
    }
}

/// A reply that carries one JSON error document with the given status, typed
/// `application/json`.
pub fn create_error_reply(error_response: Json, status: u16) -> (r: HttpReply)
    ensures
        r@ == json_reply_view(status as int, error_response@),
{
    let body = error_response;
    let mut documents: Vec<Json> = Vec::new();
    documents.push(body);
    let mut headers: Vec<(String, String)> = Vec::new();
    headers.push((copy_str("content-type"), copy_str("application/json")));
    let r = HttpReply { status, documents, line_delimited: false, headers, content_length: false };
    assert(r@.documents =~= seq![body@]);
    assert(r@.headers =~= seq![("content-type"@, "application/json"@)]);
    r
}

/// A request that is handled: the session it is handled in, its method (empty when it has
/// none), its id (`null` when it has none), its progress token, whether the reply is
/// streamed in chunks, and whether the client is the Cursor editor.
#[derive(Debug)]
pub struct HttpExchange {
    pub session_id: String,
    pub method: String,
    pub message_id: Json,
    pub progress_token: Option<Json>,
    pub use_chunked: bool,
    pub is_cursor_client: bool,
}

/// The value of a handled request.
pub struct ExchangeV {
    pub session_id: Seq<char>,
    pub method: Seq<char>,
    pub message_id: JsonV,
    pub progress_token: Option<JsonV>,
    pub use_chunked: bool,
    pub is_cursor_client: bool,
}

impl View for HttpExchange {
    type V = ExchangeV;

    open spec fn view(&self) -> ExchangeV {
        ExchangeV {
            session_id: self.session_id@,
            method: self.method@,
            message_id: self.message_id@,
            progress_token: crate::json::opt_json(self.progress_token),
            use_chunked: self.use_chunked,
            is_cursor_client: self.is_cursor_client,
        }
    }
}

/// What to do with an HTTP request.
#[derive(Debug)]
pub enum HttpPlan {
    /// Refuse it with this reply.
    Reject(HttpReply),
    /// Handle its message in the engine, then finish with [`finish_http_exchange`].
    Handle(HttpExchange),
}

/// The value of a plan.
pub enum HttpPlanV {
    Reject(HttpReplyV),
    Handle(ExchangeV),
}

impl View for HttpPlan {
    type V = HttpPlanV;

    open spec fn view(&self) -> HttpPlanV {
        match *self {
            HttpPlan::Reject(r) => HttpPlanV::Reject(r@),
            HttpPlan::Handle(e) => HttpPlanV::Handle(e@),
        }
    }
}

/// A header value, or its default when the header is absent.
pub open spec fn or_default(h: Option<Seq<char>>, d: Seq<char>) -> Seq<char> {
    match h {
        Some(v) => v,
        None => d,
    }
}

/// How an HTTP request is treated. It is refused with status 400 when the message fails
/// validation (whose text is `validation`'s error) or the content type is not JSON;
/// otherwise it is handled, in the session that [`effective_session_id`] picks.
pub open spec fn http_plan_view(
    m: JsonV,
    content_type: Option<Seq<char>>,
    accept: Option<Seq<char>>,
    connection: Option<Seq<char>>,
    cookie: Option<Seq<char>>,
    validation: Result<(), Seq<char>>,
) -> HttpPlanV {
    let ct = or_default(content_type, "application/json"@);
    let ac = or_default(accept, "application/json"@);
    let conn = or_default(connection, "close"@);
    let method = or_default(m.get_str("method"@), Seq::empty());
    match validation {
        Err(e) => HttpPlanV::Reject(
            json_reply_view(400, json_rpc_error_view(-32600, "Invalid request: "@ + e, JsonV::Null)),
        ),
        Ok(_) => if !contains(ct, "application/json"@) {
            HttpPlanV::Reject(json_reply_view(400, json_rpc_error_view(-32600, "Invalid Content-Type: "@ + ct, JsonV::Null)))
        } else {
            let token = progress_token_view(m);
            HttpPlanV::Handle(
                ExchangeV {
                    session_id: effective_session_view(method, legacy_header_session(cookie)),
                    method,
                    message_id: m.index("id"@),
                    progress_token: token,
                    use_chunked: streaming_view(ac, conn) && token is None,
                    is_cursor_client: cursor_client_view(ct, ac, cookie),
                },
            )
        },
    }
}

fn header_or(h: Option<String>, d: &str) -> (r: String)
    ensures
        r@ == or_default(opt_chars(h), d@),
{
    match h {
        Some(v) => v,
        None => copy_str(d),
    }
}

/// Decides how an HTTP request is treated, from its message, its headers, and the outcome
/// of validating the message (the text of the validation error, when it failed).
pub fn plan_http_request(
    message: &Json,
    content_type: Option<String>,
    accept: Option<String>,
    connection: Option<String>,
    cookie: Option<String>,
    validation: Result<(), String>,
) -> (r: HttpPlan)
    ensures
        r@ == http_plan_view(
            message@,
            opt_chars(content_type),
            opt_chars(accept),
            opt_chars(connection),
            opt_chars(cookie),
            match validation {
                Ok(_) => Ok(()),
                Err(e) => Err(e@),
            },
        ),
{
    let ct = header_or(content_type, "application/json");
    let ac = header_or(accept, "application/json");
    let conn = header_or(connection, "close");
    let is_cursor = detect_cursor_client(ct.as_str(), ac.as_str(), &cookie);
    let session_id = extract_session_id_from_cookie(&cookie);
    let method = match message.get_str("method") {
        Some(m) => copy_str(m.as_str()),
        None => String::new(),
    };
    match validation {
        Err(e) => {
            let mut msg = copy_str("Invalid request: ");
            append_str(&mut msg, e.as_str());
            return HttpPlan::Reject(create_error_reply(json_rpc_error(-32600, msg, Json::Null), 400));
        },
        Ok(_) => {},
    }
    if !contains_str(ct.as_str(), "application/json") {
        let mut msg = copy_str("Invalid Content-Type: ");
        append_str(&mut msg, ct.as_str());
        return HttpPlan::Reject(create_error_reply(json_rpc_error(-32600, msg, Json::Null), 400));
    }
    let token = progress_token(message);
    let streaming = supports_streaming(ac.as_str(), conn.as_str());
    let use_chunked = streaming && token.is_none();
    let session = effective_session_id(method.as_str(), &session_id);
    HttpPlan::Handle(
        HttpExchange {
            session_id: session,
            method,
            message_id: message.index_copy("id"),
            progress_token: token,
            use_chunked,
            is_cursor_client: is_cursor,
        },
    )
}

/// The JSON-RPC error code of an error reply, read off the error's text.
pub open spec fn http_error_code_view(text: Seq<char>) -> int {
    if contains(text, "Not initialized"@) {
        -32002
    } else if contains(text, "Unknown method"@) || contains(text, "Method not found"@) {
        -32601
    } else if contains(text, "Invalid params"@) {
        -32602
    } else {
        -32603
    }
}

/// The JSON-RPC error code of an error reply, read off the error's text.
pub fn http_error_code(text: &str) -> (r: i64)
    ensures
        r == http_error_code_view(text@),
{
    if contains_str(text, "Not initialized") {
        -32002
    } else if contains_str(text, "Unknown method") || contains_str(text, "Method not found") {
        -32601
    } else if contains_str(text, "Invalid params") {
        -32602
    } else {
        -32603
    }
}

/// The progress notifications of a request with a progress token: one at the start,
/// one at completion with the given text.
pub open spec fn progress_pair(token: JsonV, completion: Seq<char>) -> Seq<JsonV> {
    seq![
        progress_view(token, JsonV::Number("0.0"@), JsonV::Number("100.0"@), JsonV::Str("Starting request processing..."@)),
        progress_view(token, JsonV::Number("100.0"@), JsonV::Number("100.0"@), JsonV::Str(completion)),
    ]
}

/// The `Set-Cookie` value of a reply: the session cookie after a successful
/// `initialize`, empty otherwise.
pub open spec fn reply_cookie(ex: ExchangeV, response: JsonV) -> Seq<char> {
    if ex.method == "initialize"@ && response.has("result"@) {
        "mcp_session="@ + ex.session_id + "; Path=/mcp; HttpOnly; SameSite=Strict"@
    } else {
        Seq::empty()
    }
}

/// The session cookie this transport sets after `initialize` gives its session id back,
/// for every non-empty id without `;` and without surrounding whitespace.
pub proof fn lemma_legacy_cookie_round_trip(ex: ExchangeV, response: JsonV)
    requires
        ex.method == "initialize"@,
        response.has("result"@),
        ex.session_id.len() > 0,
        forall|k: int| 0 <= k < ex.session_id.len() ==> ex.session_id[k] != ';',
        trim(ex.session_id) == ex.session_id,
    ensures
        legacy_cookie_session(reply_cookie(ex, response), 0) == Some(ex.session_id),
{
    reveal_strlit("mcp_session=");
    reveal_strlit("; Path=/mcp; HttpOnly; SameSite=Strict");
    let id = ex.session_id;
    let p = "mcp_session="@;
    let rest = "; Path=/mcp; HttpOnly; SameSite=Strict"@;
    let s = reply_cookie(ex, response);
    let n = (p.len() + id.len()) as int;
    assert(s =~= p + id + rest);
    assert forall|k: int| 0 <= k < n implies s[k] != ';' by {
        if k < p.len() {
            assert(s[k] == p[k]);
        } else {
            assert(s[k] == id[k - p.len()]);
        }
    }
    assert(s[n] == rest[0]);
    lemma_find_char_at(s, ';', 0, n);
    let field = s.subrange(0, n);
    assert(field =~= p + id);
    assert(!is_space(field[0]));
    lemma_trimmed_ends(id);
    assert(field.last() == id.last());
    lemma_trim_noop(field);
    assert(field.subrange(0, 12) =~= p);
    assert(field.subrange(12, field.len() as int) =~= id);
    assert(trim(field) == field);
    assert(starts_with(field, p));
    assert(find_char(s, ';', 0) == n);
}

/// The reply to a handled request. A response is sent with status 200: after the progress
/// notifications, line by line and in chunks, when the request has a progress token;
/// else in chunks when the client streams, else with a content length. An error is sent
/// as a JSON-RPC error with status 200 and a code read off its text.
pub open spec fn exchange_reply_view(ex: ExchangeV, result: McpResult<Json>, completion: Seq<char>) -> HttpReplyV {
    match result {
        Ok(resp) => {
            let response = resp@;
            let with_progress = ex.progress_token is Some;
            HttpReplyV {
                status: 200,
                documents: if with_progress {
                    progress_pair(ex.progress_token->0, completion).push(response)
                } else {
                    seq![response]
                },
                line_delimited: with_progress,
                headers: seq![("content-type"@, "application/json"@)] + (if with_progress || ex.use_chunked {
                    seq![("transfer-encoding"@, "chunked"@)]
                } else {
                    Seq::empty()
                }) + seq![
                    ("connection"@, if ex.use_chunked { "keep-alive"@ } else { "close"@ }),
                    ("set-cookie"@, reply_cookie(ex, response)),
                ],
                content_length: !with_progress && !ex.use_chunked,
            }
        },
        Err(e) => json_reply_view(
            200,
            json_rpc_error_view(http_error_code_view(error_message_of(e)), error_message_of(e), ex.message_id),
        ),
    }
}

fn progress_note(token: &Json, progress: &str, message: &str) -> (r: Json)
    ensures
        r@ == progress_view(token@, JsonV::Number(progress@), JsonV::Number("100.0"@), JsonV::Str(message@)),
{
    let n = ProgressNotification {
        progress_token: token.deep_copy(),
        progress: Json::Number(copy_str(progress)),
        total: Some(Json::Number(copy_str("100.0"))),
        message: Some(copy_str(message)),
    };
    n.to_json_rpc()
}

/// Frames the engine's result for a handled request as its HTTP reply; `completion` is
/// the text of the completion notification, sent when the request has a progress token.
pub fn finish_http_exchange(ex: &HttpExchange, result: McpResult<Json>, completion: &str) -> (r: HttpReply)
    ensures
        r@ == exchange_reply_view(ex@, result, completion@),
{
    match result {
        Ok(response) => {
            let with_progress = ex.progress_token.is_some();
            let mut headers: Vec<(String, String)> = Vec::new();
            headers.push((copy_str("content-type"), copy_str("application/json")));
            if with_progress || ex.use_chunked {
                headers.push((copy_str("transfer-encoding"), copy_str("chunked")));
            }
            let conn = if ex.use_chunked {
                copy_str("keep-alive")
            } else {
                copy_str("close")
            };
            headers.push((copy_str("connection"), conn));
            let cookie = if str_eq(ex.method.as_str(), "initialize") && response.has("result") {
                let mut c = copy_str("mcp_session=");
                append_str(&mut c, ex.session_id.as_str());
                append_str(&mut c, "; Path=/mcp; HttpOnly; SameSite=Strict");
                c
            } else {
                String::new()
            };
            headers.push((copy_str("set-cookie"), cookie));
            let mut documents: Vec<Json> = Vec::new();
            match &ex.progress_token {
                Some(t) => {
                    documents.push(progress_note(t, "0.0", "Starting request processing..."));
                    documents.push(progress_note(t, "100.0", completion));
                },
                None => {},
            }
            documents.push(response);
            let r = HttpReply {
                status: 200,
                documents,
                line_delimited: with_progress,
                headers,
                content_length: !with_progress && !ex.use_chunked,
            };
            assert(r@.headers =~= exchange_reply_view(ex@, Ok(response), completion@).headers);
            assert(r@.documents =~= exchange_reply_view(ex@, Ok(response), completion@).documents);
            r
        },
        Err(e) => {
            let text = e.message();
            let code = http_error_code(text.as_str());
            create_error_reply(json_rpc_error(code, text, ex.message_id.deep_copy()), 200)
        },
    }
}

/// How long to wait before sending a reply: longer for large replies to the Cursor editor.
pub fn reply_delay_ms(is_cursor_client: bool, response_size: usize) -> (r: u64)
    ensures
        r == if is_cursor_client && response_size > 5000 { 15u64 } else { 10u64 },
{
    if is_cursor_client && response_size > 5000 {
        15
    } else {
        10
    }
}

/// A session id of the HTTP transport: `session_`, the milliseconds of the clock, `_`,
/// and a count.
pub open spec fn session_id_text(millis: nat, count: nat) -> Seq<char> {
    "session_"@ + dec_text(millis) + "_"@ + dec_text(count)
}

/// Makes session ids from the clock and a count of the ids made so far.
pub struct SessionIdGenerator {
    count: u64,
}

impl SessionIdGenerator {
    /// How many ids this generator has made (modulo 2^64).
    pub closed spec fn count(&self) -> u64 {
        self.count
    }

    /// A generator that has made no id.
    pub fn new() -> (r: Self)
        ensures
            r.count() == 0,
    {
        SessionIdGenerator { count: 0 }
    }

    /// A new session id, from the clock's milliseconds (0 when the clock reads a time
    /// before 1970) and the count so far, which it increments.
    pub fn generate_session_id(&mut self) -> (r: String)
        ensures
            exists|millis: nat| r@ == session_id_text(millis, old(self).count() as nat),
            final(self).count() == if old(self).count() == u64::MAX { 0 } else { (old(self).count() + 1) as u64 },
    {
        let millis = unix_millis_now();
        let r = format_session_id(millis, self.count);
        self.count = self.count.wrapping_add(1);
        r
    }
}

/// The session id made at clock reading `millis` (milliseconds) with count `count`.
pub fn format_session_id(millis: u128, count: u64) -> (r: String)
    ensures
        r@ == session_id_text(millis as nat, count as nat),
{
    let mut r = copy_str("session_");
    push_decimal(&mut r, millis);
    append_str(&mut r, "_");
    push_decimal(&mut r, count as u128);
    r
}

/// Session ids made at clock readings with the same number of digits differ when their
/// counts differ; in particular a generator never repeats an id within one such span
/// of 2^64 ids.
pub proof fn lemma_session_ids_distinct(m1: nat, c1: nat, m2: nat, c2: nat)
    requires
        dec_text(m1).len() == dec_text(m2).len(),
        c1 != c2,
    ensures
        session_id_text(m1, c1) != session_id_text(m2, c2),
{
    reveal_strlit("session_");
    reveal_strlit("_");
    let a = session_id_text(m1, c1);
    let b = session_id_text(m2, c2);
    if a == b {
        let k = (8 + dec_text(m1).len() + 1) as int;
        assert(a.subrange(k, a.len() as int) =~= dec_text(c1));
        assert(b.subrange(k, b.len() as int) =~= dec_text(c2));
        lemma_dec_text_injective(c1, c2);
    }
}

/// Whether a client asks for a Server-Sent Events stream.
pub open spec fn sse_requested(accept: Option<Seq<char>>) -> bool {
    accept matches Some(a) && contains(a, "text/event-stream"@)
}

/// The error body that tells a client asking for Server-Sent Events which transports
/// there are.
pub open spec fn sse_fallback_view() -> JsonV {
    JsonV::Object(
        seq![
            (
                "error"@,
                JsonV::Object(
                    seq![
                        ("code"@, JsonV::Int(-32600)),
                        ("message"@, JsonV::Str("Server-Sent Events (SSE) transport not implemented"@)),
                        (
                            "data"@,
                            JsonV::Object(
                                seq![
                                    (
                                        "supported_transports"@,
                                        JsonV::Array(seq![JsonV::Str("http_post"@), JsonV::Str("websocket"@)]),
                                    ),
                                    (
                                        "instructions"@,
                                        JsonV::Str(
                                            "Use HTTP POST with JSON-RPC or WebSocket for real-time communication"@,
                                        ),
                                    ),
                                    ("fallback_suggestion"@, JsonV::Str("Try connecting with HTTP POST transport"@)),
                                ],
                            ),
                        ),
                    ],
                ),
            ),
        ],
    )
}

/// The body answering a GET that asks for Server-Sent Events, which this server does not
/// offer; `None` when the request does not ask for them and other routes should take it.
pub fn sse_fallback_body(accept: &Option<String>) -> (r: Option<Json>)
    ensures
        match r {
            Some(j) => sse_requested(opt_chars(*accept)) && j@ == sse_fallback_view(),
            None => !sse_requested(opt_chars(*accept)),
        },
{
    let asked = match accept {
        Some(a) => contains_str(a.as_str(), "text/event-stream"),
        None => false,
    };
    if !asked {
        return None;
    }
    let mut transports: Vec<Json> = Vec::new();
    transports.push(Json::string("http_post"));
    transports.push(Json::string("websocket"));
    let arr = crate::json::array_of(transports);
    assert(crate::json::items_view(transports@) =~= seq![JsonV::Str("http_post"@), JsonV::Str("websocket"@)]);
    let data = crate::json::obj3(
        "supported_transports",
        arr,
        "instructions",
        Json::string("Use HTTP POST with JSON-RPC or WebSocket for real-time communication"),
        "fallback_suggestion",
        Json::string("Try connecting with HTTP POST transport"),
    );
    let err = crate::json::obj3(
        "code",
        Json::Int(-32600),
        "message",
        Json::string("Server-Sent Events (SSE) transport not implemented"),
        "data",
        data,
    );
    Some(crate::json::obj1("error", err))
}

} // verus!

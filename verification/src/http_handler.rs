//! The HTTP POST exchange: a request is validated, placed in its session, handled by
//! the engine, and answered through a [`ResponseBuilder`].

use vstd::prelude::*;
use crate::error::{McpError, McpResult, json_rpc_error_view, error_code_of, error_message_of};
use crate::http::{HttpReply, HttpReplyV, cursor_client_view, detect_cursor_client, or_default};
use crate::http::response::{ResponseBuilder, built_reply, header_value_ok};
use crate::http::session::{SessionContext, extract_session_context, generate_session_id, session_context_view, drawn_session_id,
    session_id_chars, session_cookie_text, lemma_generated_id_round_trip};
use crate::http::validation::{ValidatedRequest, ValidatedV, validate_request, validate_view};
use crate::json::{Json, JsonV, opt_chars};
use crate::text::{append_str, copy_str};

verus! {

broadcast use vstd::string::group_string_axioms;

/// A request that is handled: what validation read off it, its session, and whether
/// the client is the Cursor editor.
#[derive(Debug)]
pub struct PostExchange {
    pub validated: ValidatedRequest,
    pub session: SessionContext,
    pub is_cursor_client: bool,
}

/// What to do with a POST request.
#[derive(Debug)]
pub enum PostPlan {
    /// Refuse it with this reply.
    Reject(HttpReply),
    /// Handle its message in the engine in `session.id`, then finish with
    /// [`finish_post_exchange`].
    Handle(PostExchange),
}

/// The value of a POST plan: the reply of a refusal, or what a handled request records
/// together with its session context and client.
pub enum PostPlanV {
    Reject(HttpReplyV),
    Handle(ValidatedV, (Seq<char>, bool, bool), bool),
}

impl View for PostPlan {
    type V = PostPlanV;

    open spec fn view(&self) -> PostPlanV {
        match *self {
            PostPlan::Reject(r) => PostPlanV::Reject(r@),
            PostPlan::Handle(e) => PostPlanV::Handle(
                e.validated@,
                (e.session.id@, e.session.is_new, e.session.from_cookie),
                e.is_cursor_client,
            ),
        }
    }
}

/// The outcome of a check, with the text of its failure.
pub open spec fn check_view(c: Result<(), String>) -> Result<(), Seq<char>> {
    match c {
        Ok(_) => Ok(()),
        Err(e) => Err(e@),
    }
}

/// The session of a POST request: an `initialize` opens the new session `fresh`, whose
/// cookie the reply sets; any other request is in the session its cookie names, or in
/// the default HTTP session.
pub open spec fn post_session(method: Seq<char>, cookie: Option<Seq<char>>, fresh: Seq<char>) -> (Seq<char>, bool, bool) {
    let (id, is_new, from_cookie) = session_context_view(method, cookie);
    (if is_new { fresh } else { id }, is_new, from_cookie)
}

/// How a POST request is treated: refused when validation fails (with no id) or when the
/// message structure is invalid (with its id); handled otherwise, an `initialize` in the
/// freshly generated session `fresh`.
pub open spec fn post_plan_view(
    m: JsonV,
    content_type: Option<Seq<char>>,
    accept: Option<Seq<char>>,
    cookie: Option<Seq<char>>,
    request_size: nat,
    structure: Result<(), Seq<char>>,
    fresh: Seq<char>,
) -> PostPlanV {
    let ct = or_default(content_type, "application/json"@);
    let ac = or_default(accept, "application/json"@);
    match validate_view(m, ct, request_size) {
        Err(text) => PostPlanV::Reject(
            built_reply(false, None, json_rpc_error_view(-32602, "Invalid parameters: "@ + text, JsonV::Null)),
        ),
        Ok(v) => match structure {
            Err(e) => PostPlanV::Reject(
                built_reply(
                    false,
                    None,
                    json_rpc_error_view(-32602, "Invalid parameters: "@ + ("Invalid request: "@ + e), v.message_id),
                ),
            ),
            Ok(_) => PostPlanV::Handle(v, post_session(v.method, cookie, fresh), cursor_client_view(ct, ac, cookie)),
        },
    }
}

/// The cookie of a generated session id is a valid header value, so the reply to an
/// `initialize` always carries it.
pub proof fn lemma_generated_cookie_is_sent(fresh: Seq<char>)
    requires
        session_id_chars(fresh),
    ensures
        header_value_ok(session_cookie_text(fresh)),
{
    reveal_strlit("mcp_session=");
    reveal_strlit("; Path=/mcp; HttpOnly; SameSite=Strict; Max-Age=86400");
    let p = "mcp_session="@;
    let q = "; Path=/mcp; HttpOnly; SameSite=Strict; Max-Age=86400"@;
    let c = session_cookie_text(fresh);
    assert(c =~= p + fresh + q);
    assert forall|i: int| 0 <= i < c.len() implies ((c[i] as u32) >= 32 && (c[i] as u32) != 127) || c[i] == '\t' by {
        if i < p.len() {
            assert(c[i] == p[i]);
        } else if i < p.len() + fresh.len() {
            assert(c[i] == fresh[i - p.len()]);
        } else {
            assert(c[i] == q[i - p.len() - fresh.len()]);
        }
    }
}

/// HTTP sessions persist: an `initialize` is handled in the new session `fresh`, whose
/// cookie its reply sets (see [`finish_post_exchange`]), and a later request that
/// carries that cookie is handled in that same session.
pub proof fn lemma_post_session_persists(
    init: JsonV,
    ct1: Option<Seq<char>>,
    ac1: Option<Seq<char>>,
    cookie1: Option<Seq<char>>,
    size1: nat,
    fresh: Seq<char>,
    next: JsonV,
    ct2: Option<Seq<char>>,
    ac2: Option<Seq<char>>,
    size2: nat,
    fresh2: Seq<char>,
)
    requires
        session_id_chars(fresh),
        validate_view(init, or_default(ct1, "application/json"@), size1) matches Ok(v) && v.method == "initialize"@,
        validate_view(next, or_default(ct2, "application/json"@), size2) matches Ok(w) && w.method != "initialize"@,
    ensures
        post_plan_view(init, ct1, ac1, cookie1, size1, Ok(()), fresh) matches PostPlanV::Handle(_, s1, _) && s1.0
            == fresh && s1.1,
        post_plan_view(next, ct2, ac2, Some(session_cookie_text(fresh)), size2, Ok(()), fresh2) matches PostPlanV::Handle(
            _,
            s2,
            _,
        ) && s2 == (fresh, false, true),
        header_value_ok(session_cookie_text(fresh)),
{
    lemma_generated_id_round_trip(fresh);
    lemma_generated_cookie_is_sent(fresh);
}

/// Decides how a POST request is treated, from its message, its headers, the length of
/// its JSON text, and the outcome of checking its structure (the text of the structure
/// error, when it failed).
pub fn plan_post_exchange(
    message: Json,
    content_type: Option<String>,
    accept: Option<String>,
    cookie: &Option<String>,
    request_size: usize,
    structure: Result<(), String>,
) -> (r: PostPlan)
    ensures
        exists|fresh: Seq<char>|
            session_id_chars(fresh) && r@ == post_plan_view(
                message@,
                opt_chars(content_type),
                opt_chars(accept),
                opt_chars(*cookie),
                request_size as nat,
                check_view(structure),
                fresh,
            ),
        r matches PostPlan::Handle(ex) ==> (ex.session.is_new ==> drawn_session_id(ex.session.id@)),
{
    let ghost mut fresh: Seq<char> = Seq::new(32, |_i: int| 'a');
    assert(session_id_chars(fresh));
    let ct = match content_type {
        Some(c) => c,
        None => copy_str("application/json"),
    };
    let ac = match accept {
        Some(a) => a,
        None => copy_str("application/json"),
    };
    let is_cursor_client = detect_cursor_client(ct.as_str(), ac.as_str(), cookie);
    let validated = match validate_request(message, ct.as_str(), request_size) {
        Ok(v) => v,
        Err(e) => {
            let r = PostPlan::Reject(ResponseBuilder::new().build_error(e, None));
            assert(session_id_chars(fresh) && r@ == post_plan_view(
                message@,
                opt_chars(content_type),
                opt_chars(accept),
                opt_chars(*cookie),
                request_size as nat,
                check_view(structure),
                fresh,
            ));
            return r;
        },
    };
    let mut session = extract_session_context(validated.method.as_str(), cookie);
    if session.is_new {
        let id = generate_session_id();
        proof {
            fresh = id@;
        }
        session.id = id;
    }
    let r = match structure {
        Err(e) => {
            let mut text = copy_str("Invalid request: ");
            append_str(&mut text, e.as_str());
            let id = validated.message_id.deep_copy();
            PostPlan::Reject(ResponseBuilder::new().build_error(McpError::InvalidParams(text), Some(id)))
        },
        Ok(_) => PostPlan::Handle(PostExchange { validated, session, is_cursor_client }),
    };
    assert(session_id_chars(fresh) && r@ == post_plan_view(
        message@,
        opt_chars(content_type),
        opt_chars(accept),
        opt_chars(*cookie),
        request_size as nat,
        check_view(structure),
        fresh,
    ));
    r
}

/// The body of the reply to a handled request: the engine's response, or the JSON-RPC
/// error for its error, answering the request's id.
pub open spec fn post_body(result: McpResult<Json>, message_id: JsonV) -> JsonV {
    match result {
        Ok(v) => v@,
        Err(e) => json_rpc_error_view(error_code_of(e), error_message_of(e), message_id),
    }
}

/// Frames the engine's result for a handled request. A new session (an `initialize`)
/// gets the cookie of the session it was handled in; a request with a progress token is
/// answered in chunks.
pub fn finish_post_exchange(ex: &PostExchange, result: McpResult<Json>) -> (r: HttpReply)
    ensures
        r@ == built_reply(
            ex.validated.has_progress_token,
            if ex.session.is_new {
                Some(ex.session.id@)
            } else {
                None
            },
            post_body(result, ex.validated.message_id@),
        ),
{
    let mut builder = ResponseBuilder::new();
    if ex.session.is_new {
        builder = builder.with_session(copy_str(ex.session.id.as_str()));
    }
    if ex.validated.has_progress_token {
        builder = builder.with_chunked_encoding(true);
    }
    match result {
        Ok(v) => builder.build_success(v),
        Err(e) => builder.build_error(e, Some(ex.validated.message_id.deep_copy())),
    }
}

/// How long to wait before sending a reply: a pause for large replies to the Cursor
/// editor, none otherwise.
pub fn cursor_delay_ms(is_cursor_client: bool, response_size: usize) -> (r: u64)
    ensures
        r == if is_cursor_client && response_size > 5000 { 15u64 } else { 0u64 },
{
    if is_cursor_client && response_size > 5000 {
        15
    } else {
        0
    }
}

} // verus!

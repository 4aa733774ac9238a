//! Building the HTTP reply that carries a JSON-RPC response.

use vstd::prelude::*;
use crate::error::{McpError, json_rpc_error_view, error_code_of, error_message_of, id_view};
use crate::http::{HttpReply, HttpReplyV};
use crate::http::session::{create_session_cookie, session_cookie_text};
use crate::json::{Json, JsonV, opt_chars};
use crate::text::copy_str;

verus! {

broadcast use vstd::string::group_string_axioms;

/// Whether a text is a valid HTTP header value: every byte is visible ASCII, a space, a
/// tab, or part of a non-ASCII character.
pub open spec fn header_value_ok(s: Seq<char>) -> bool {
    forall|i: int| 0 <= i < s.len() ==> ((s[i] as u32) >= 32 && (s[i] as u32) != 127) || s[i] == '\t'
}

/// `HeaderValue::from_str` succeeds exactly on valid header values: its source accepts
/// a text when each byte `b` has `b >= 32 && b != 127 || b == b'\t'`, and every byte of
/// a non-ASCII character is 128 or more.
#[verifier::external_body]
fn header_value_accepted(s: &str) -> (r: bool)
    ensures
        r == header_value_ok(s@),
{
    warp::http::HeaderValue::from_str(s).is_ok()
}

/// Builds the reply to a JSON-RPC request: always status 200 with a JSON content type,
/// with the session cookie and chunked transfer when asked for.
#[derive(Debug)]
pub struct ResponseBuilder {
    use_chunked: bool,
    session_id: Option<String>,
}

/// The headers of a reply built with these settings.
pub open spec fn built_headers(use_chunked: bool, session_id: Option<Seq<char>>) -> Seq<(Seq<char>, Seq<char>)> {
    seq![("Content-Type"@, "application/json"@)] + (match session_id {
        Some(id) => if header_value_ok(session_cookie_text(id)) {
            seq![("Set-Cookie"@, session_cookie_text(id))]
        } else {
            Seq::empty()
        },
        None => Seq::empty(),
    }) + (if use_chunked {
        seq![("Transfer-Encoding"@, "chunked"@)]
    } else {
        Seq::empty()
    })
}

/// The reply carrying `body` built with these settings.
pub open spec fn built_reply(use_chunked: bool, session_id: Option<Seq<char>>, body: JsonV) -> HttpReplyV {
    HttpReplyV {
        status: 200,
        documents: seq![body],
        line_delimited: false,
        headers: built_headers(use_chunked, session_id),
        content_length: false,
    }
}

impl ResponseBuilder {
    /// Whether the reply is sent in chunks.
    pub closed spec fn chunked(&self) -> bool {
        self.use_chunked
    }

    /// The session whose cookie the reply sets, if any.
    pub closed spec fn session(&self) -> Option<Seq<char>> {
        opt_chars(self.session_id)
    }

    /// A builder for a plain reply: no cookie, not chunked.
    pub fn new() -> (r: Self)
        ensures
            !r.chunked(),
            r.session() is None,
    {
        ResponseBuilder { use_chunked: false, session_id: None }
    }

    /// The same builder, sending in chunks or not.
    pub fn with_chunked_encoding(self, use_chunked: bool) -> (r: Self)
        ensures
            r.chunked() == use_chunked,
            r.session() == self.session(),
    {
        ResponseBuilder { use_chunked, ..self }
    }

    /// The same builder, setting the cookie of session `session_id`.
    pub fn with_session(self, session_id: String) -> (r: Self)
        ensures
            r.chunked() == self.chunked(),
            r.session() == Some(session_id@),
    {
        ResponseBuilder { session_id: Some(session_id), ..self }
    }

    /// The reply carrying `body`. The cookie is left out when it is not a valid header value.
    pub fn build_success(self, body: Json) -> (r: HttpReply)
        ensures
            r@ == built_reply(self.chunked(), self.session(), body@),
    {
        let mut headers: Vec<(String, String)> = Vec::new();
        headers.push((copy_str("Content-Type"), copy_str("application/json")));
        match &self.session_id {
            Some(id) => {
                let cookie = create_session_cookie(id.as_str());
                if header_value_accepted(cookie.as_str()) {
                    headers.push((copy_str("Set-Cookie"), cookie));
                }
            },
            None => {},
        }
        if self.use_chunked {
            headers.push((copy_str("Transfer-Encoding"), copy_str("chunked")));
        }
        let mut documents: Vec<Json> = Vec::new();
        documents.push(body);
        let r = HttpReply { status: 200, documents, line_delimited: false, headers, content_length: false };
        assert(r@.documents =~= seq![body@]);
        assert(r@.headers =~= built_headers(self.chunked(), self.session()));
        r
    }

    /// The reply carrying the JSON-RPC error response for `error`, answering `message_id`.
    pub fn build_error(self, error: McpError, message_id: Option<Json>) -> (r: HttpReply)
        ensures
            r@ == built_reply(
                self.chunked(),
                self.session(),
                json_rpc_error_view(error_code_of(error), error_message_of(error), id_view(message_id)),
            ),
    {
        let body = error.to_json_rpc_error(message_id);
        self.build_success(body)
    }
}

} // verus!

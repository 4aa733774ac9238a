//! HTTP sessions: the session cookie, and which session a request belongs to.

use vstd::prelude::*;
use rand::Rng;
use rand::distr::Alphanumeric;
use crate::json::opt_chars;
use crate::text::{is_space, lemma_find_char_at, lemma_trimmed_ends, lemma_trim_noop, chars_of, copy_str, str_eq, append_str, string_of_range, trim_bounds, strip_all_from, matches_at,
    find_char_from, find_char, lemma_find_char, trim, starts_with, strip_all};

verus! {

broadcast use vstd::string::group_string_axioms;

/// Which session a request belongs to.
#[derive(Debug)]
pub struct SessionContext {
    pub id: String,
    pub is_new: bool,
    pub from_cookie: bool,
}

/// The name of the session cookie, with its `=`.
pub open spec fn session_prefix() -> Seq<char> {
    "mcp_session="@
}

/// The session of clients that send no session cookie, and of every `initialize`.
pub open spec fn default_http_session() -> Seq<char> {
    "http_default_session"@
}

/// The session id in the first field of `cookie[from..]` (fields are separated by `;`)
/// that starts with `mcp_session=` once trimmed; every leading repetition of that prefix
/// is removed from it.
pub open spec fn cookie_session(s: Seq<char>, from: int) -> Option<Seq<char>>
    decreases s.len() - from,
    when 0 <= from <= s.len()
{
    let end = find_char(s, ';', from);
    let field = trim(s.subrange(from, end));
    if starts_with(field, session_prefix()) {
        Some(strip_all(field, session_prefix()))
    } else if end >= s.len() {
        None
    } else {
        proof {
            lemma_find_char(s, ';', from);
        }
        cookie_session(s, end + 1)
    }
}

/// The session id of an optional `Cookie` header.
pub open spec fn header_session(cookie: Option<Seq<char>>) -> Option<Seq<char>> {
    match cookie {
        Some(c) => cookie_session(c, 0),
        None => None,
    }
}

/// A session cookie that the server sets gives its session id back, for every id without
/// `;`, without surrounding whitespace, and not itself beginning with `mcp_session=`.
pub proof fn lemma_session_cookie_round_trip(id: Seq<char>)
    requires
        forall|k: int| 0 <= k < id.len() ==> id[k] != ';',
        trim(id) == id,
        !starts_with(id, session_prefix()),
    ensures
        cookie_session(session_cookie_text(id), 0) == Some(id),
{
    reveal_strlit("mcp_session=");
    reveal_strlit("; Path=/mcp; HttpOnly; SameSite=Strict; Max-Age=86400");
    let p = session_prefix();
    let rest = "; Path=/mcp; HttpOnly; SameSite=Strict; Max-Age=86400"@;
    let s = session_cookie_text(id);
    let n = (p.len() + id.len()) as int;
    assert(s =~= p + id + rest);
    assert forall|k: int| 0 <= k < n implies s[k] != ';' by {
        if k < p.len() {
            assert(s[k] == p[k]);
        } else {
            assert(s[k] == id[k - p.len()]);
        }
    }
    assert(s[n] == rest[0]);
    lemma_find_char_at(s, ';', 0, n);
    let field = s.subrange(0, n);
    assert(field =~= p + id);
    assert(!is_space(field[0]));
    if id.len() > 0 {
        lemma_trimmed_ends(id);
        assert(field.last() == id.last());
    } else {
        assert(field.last() == p.last());
    }
    lemma_trim_noop(field);
    assert(field.subrange(0, p.len() as int) =~= p);
    assert(field.subrange(p.len() as int, field.len() as int) =~= id);
    assert(trim(field) == field);
    assert(starts_with(field, p));
    assert(strip_all(id, p) == id);
    assert(strip_all(field, p) == strip_all(field.subrange(p.len() as int, field.len() as int), p));
    assert(strip_all(field, p) == id);
    assert(find_char(s, ';', 0) == n);
}

/// The session context of a request: `initialize` and cookie-less requests belong to the
/// default HTTP session.
pub open spec fn session_context_view(method: Seq<char>, cookie: Option<Seq<char>>) -> (Seq<char>, bool, bool) {
    let sid = header_session(cookie);
    let id = if method == "initialize"@ || sid is None {
        default_http_session()
    } else {
        sid->0
    };
    (id, method == "initialize"@, sid is Some)
}

/// The `Set-Cookie` value that keeps a client in session `id` for a day.
pub open spec fn session_cookie_text(id: Seq<char>) -> Seq<char> {
    session_prefix() + id + "; Path=/mcp; HttpOnly; SameSite=Strict; Max-Age=86400"@
}

/// The session of a request, from its method and `Cookie` header.
pub fn extract_session_context(method: &str, cookie: &Option<String>) -> (r: SessionContext)
    ensures
        (r.id@, r.is_new, r.from_cookie) == session_context_view(method@, opt_chars(*cookie)),
{
    let session_id = extract_session_id_from_cookie(cookie);
    let is_init = str_eq(method, "initialize");
    let from_cookie = session_id.is_some();
    let id = match session_id {
        Some(s) => if is_init {
            copy_str("http_default_session")
        } else {
            s
        },
        None => copy_str("http_default_session"),
    };
    SessionContext { id, is_new: is_init, from_cookie }
}

/// The session id of a `Cookie` header.
pub fn extract_session_id_from_cookie(cookie: &Option<String>) -> (r: Option<String>)
    ensures
        opt_chars(r) == header_session(opt_chars(*cookie)),
{
    let c = match cookie {
        Some(c) => c,
        None => {
            return None;
        },
    };
    let chars = chars_of(c.as_str());
    let prefix = chars_of("mcp_session=");
    proof {
        reveal_strlit("mcp_session=");
    }
    let mut from: usize = 0;
    loop
        invariant
            from <= chars@.len(),
            chars@ == c@,
            opt_chars(*cookie) == Some(chars@),
            prefix@ == session_prefix(),
            prefix@.len() == 12,
            cookie_session(chars@, 0) == cookie_session(chars@, from as int),
        decreases chars@.len() - from,
    {
        let end = find_char_from(&chars, ';', from);
        proof {
            lemma_find_char(chars@, ';', from as int);
        }
        let (a, b) = trim_bounds(&chars, from, end);
        let ghost field = chars@.subrange(from as int, end as int);
        if b - a >= prefix.len() && matches_at(&chars, &prefix, a) {
            let rest = strip_all_from(&chars, &prefix, a, b);
            assert(trim(field).subrange(0, prefix@.len() as int) =~= chars@.subrange(a as int, a + prefix@.len()));
            return Some(string_of_range(&chars, rest, b));
        }
        proof {
            if starts_with(trim(field), session_prefix()) {
                assert(trim(field).subrange(0, prefix@.len() as int) =~= chars@.subrange(a as int, a + prefix@.len()));
            }
        }
        if end >= chars.len() {
            assert(cookie_session(chars@, from as int) is None);
            return None;
        }
        from = end + 1;
    }
}

/// `Alphanumeric` sampled from the thread's random generator: one of `A`-`Z`, `a`-`z`,
/// `0`-`9`, which one being up to chance.
#[verifier::external_body]
fn random_alphanumeric() -> (c: char)
    ensures
        ('A' <= c <= 'Z') || ('a' <= c <= 'z') || ('0' <= c <= '9'),
{
    char::from(rand::rng().sample(Alphanumeric))
}

/// Whether a text is a generated session id: 32 ASCII letters and digits.
pub open spec fn session_id_chars(s: Seq<char>) -> bool {
    &&& s.len() == 32
    &&& forall|i: int| 0 <= i < 32 ==> ('A' <= #[trigger] s[i] <= 'Z') || ('a' <= s[i] <= 'z') || ('0' <= s[i] <= '9')
}

/// A generated session id survives the session cookie: the cookie made for it reads
/// back as it.
pub proof fn lemma_generated_id_round_trip(id: Seq<char>)
    requires
        session_id_chars(id),
    ensures
        cookie_session(session_cookie_text(id), 0) == Some(id),
{
    reveal_strlit("mcp_session=");
    assert(!is_space(id[0]));
    assert(!is_space(id.last()));
    lemma_trim_noop(id);
    if starts_with(id, session_prefix()) {
        assert(id.subrange(0, 12)[3] == session_prefix()[3]);
        assert(false);
    }
    lemma_session_cookie_round_trip(id);
}

/// Whether a text is a session id that [`generate_session_id`] drew: 32 ASCII letters
/// and digits, each picked at random. The definition is closed, so outside this module
/// nothing but a call of the generator establishes it.
pub closed spec fn drawn_session_id(s: Seq<char>) -> bool {
    session_id_chars(s)
}

/// A drawn session id is 32 ASCII letters and digits.
pub proof fn lemma_drawn_session_id_chars(s: Seq<char>)
    requires
        drawn_session_id(s),
    ensures
        session_id_chars(s),
{
}

/// A new random session id: 32 ASCII letters and digits.
pub fn generate_session_id() -> (r: String)
    ensures
        session_id_chars(r@),
        drawn_session_id(r@),
{
    let mut r = String::new();
    let mut i: usize = 0;
    while i < 32
        invariant
            i <= 32,
            r@.len() == i,
            forall|k: int| 0 <= k < i ==> ('A' <= #[trigger] r@[k] <= 'Z') || ('a' <= r@[k] <= 'z') || ('0' <= r@[k] <= '9'),
        decreases 32 - i,
    {
        r.push(random_alphanumeric());
        i = i + 1;
    }
    r
}

/// The `Set-Cookie` value for session `session_id`.
pub fn create_session_cookie(session_id: &str) -> (r: String)
    ensures
        r@ == session_cookie_text(session_id@),
{
    let mut r = copy_str("mcp_session=");
    append_str(&mut r, session_id);
    append_str(&mut r, "; Path=/mcp; HttpOnly; SameSite=Strict; Max-Age=86400");
    proof {
        reveal_strlit("mcp_session=");
    }
    r
}

} // verus!

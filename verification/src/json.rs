//! A JSON document model and the lookups that the protocol logic makes on it.
//!
//! Numbers that fit an `i64` are held as integers; every other number is held
//! by its textual form, so no floating point enters the library.

use vstd::prelude::*;
use crate::text::{copy_str, str_eq, dec_text, decimal_string};

verus! {

broadcast use vstd::string::group_string_axioms;

/// A JSON value.
#[derive(Debug)]
pub enum Json {
    Null,
    Bool(bool),
    /// An integer number.
    Int(i64),
    /// Any other number, by its JSON text (such as `100.0` or `1e400`).
    Number(String),
    Str(String),
    Array(Vec<Json>),
    /// Members in order; lookups find the first member with a given key.
    Object(Vec<(String, Json)>),
}

/// The mathematical value of a JSON document.
pub enum JsonV {
    Null,
    Bool(bool),
    Int(int),
    Number(Seq<char>),
    Str(Seq<char>),
    Array(Seq<JsonV>),
    Object(Seq<(Seq<char>, JsonV)>),
}

/// The view of one JSON value.
pub open spec fn json_view(j: Json) -> JsonV
    decreases j,
{
    match j {
        Json::Null => JsonV::Null,
        Json::Bool(b) => JsonV::Bool(b),
        Json::Int(i) => JsonV::Int(i as int),
        Json::Number(s) => JsonV::Number(s@),
        Json::Str(s) => JsonV::Str(s@),
        Json::Array(v) => JsonV::Array(
            Seq::new(
                v@.len(),
                |i: int|
                    if 0 <= i < v@.len() {
                        proof {
                            assert(decreases_to!(v => v@[i]));
                        }
                        json_view(v@[i])
                    } else {
                        JsonV::Null
                    },
            ),
        ),
        Json::Object(v) => JsonV::Object(
            Seq::new(
                v@.len(),
                |i: int|
                    if 0 <= i < v@.len() {
                        proof {
                            assert(decreases_to!(v => v@[i].1));
                        }
                        (v@[i].0@, json_view(v@[i].1))
                    } else {
                        (Seq::empty(), JsonV::Null)
                    },
            ),
        ),
    }
}

impl View for Json {
    type V = JsonV;

    open spec fn view(&self) -> JsonV {
        json_view(*self)
    }
}

/// The value of the first member named `key`.
pub open spec fn member(entries: Seq<(Seq<char>, JsonV)>, key: Seq<char>) -> Option<JsonV>
    decreases entries.len(),
{
    if entries.len() == 0 {
        None
    } else if entries[0].0 == key {
        Some(entries[0].1)
    } else {
        member(entries.drop_first(), key)
    }
}

/// Looking up the third member of a three-member object whose first two members have
/// other keys.
pub proof fn lemma_member_third(
    k0: Seq<char>,
    v0: JsonV,
    k1: Seq<char>,
    v1: JsonV,
    k2: Seq<char>,
    v2: JsonV,
    key: Seq<char>,
)
    requires
        k0 != key,
        k1 != key,
        k2 == key,
    ensures
        member(seq![(k0, v0), (k1, v1), (k2, v2)], key) == Some(v2),
{
    let s = seq![(k0, v0), (k1, v1), (k2, v2)];
    let s1 = seq![(k1, v1), (k2, v2)];
    let s2 = seq![(k2, v2)];
    assert(s.drop_first() =~= s1);
    assert(s1.drop_first() =~= s2);
    assert(member(s2, key) == Some(v2));
    assert(member(s1, key) == member(s2, key));
    assert(member(s, key) == member(s1, key));
}

impl JsonV {
    /// `Value::get` with a string key: the member of an object, `None` for any other value.
    pub open spec fn get(self, key: Seq<char>) -> Option<JsonV> {
        match self {
            JsonV::Object(es) => member(es, key),
            _ => None,
        }
    }

    /// `Value::as_str`.
    pub open spec fn as_str(self) -> Option<Seq<char>> {
        match self {
            JsonV::Str(s) => Some(s),
            _ => None,
        }
    }

    /// The string held by member `key`, if that member exists and is a string.
    pub open spec fn get_str(self, key: Seq<char>) -> Option<Seq<char>> {
        match self.get(key) {
            Some(v) => v.as_str(),
            None => None,
        }
    }

    /// Whether member `key` exists.
    pub open spec fn has(self, key: Seq<char>) -> bool {
        self.get(key) is Some
    }

    /// `value["key"]` in serde_json: the member, or `null` when it is absent.
    pub open spec fn index(self, key: Seq<char>) -> JsonV {
        match self.get(key) {
            Some(v) => v,
            None => JsonV::Null,
        }
    }

    pub open spec fn is_object(self) -> bool {
        self is Object
    }
}

/// The view of an optional value, `null` when absent.
pub open spec fn opt_view(o: Option<JsonV>) -> JsonV {
    match o {
        Some(v) => v,
        None => JsonV::Null,
    }
}

/// The view of an optional value.
pub open spec fn opt_json(o: Option<Json>) -> Option<JsonV> {
    match o {
        Some(v) => Some(v@),
        None => None,
    }
}

/// The view of an optional string.
pub open spec fn opt_chars(o: Option<String>) -> Option<Seq<char>> {
    match o {
        Some(s) => Some(s@),
        None => None,
    }
}

/// The view of an optional string, `null` when absent.
pub open spec fn opt_str_view(o: Option<Seq<char>>) -> JsonV {
    match o {
        Some(s) => JsonV::Str(s),
        None => JsonV::Null,
    }
}

proof fn lemma_member_skip(es: Seq<(Seq<char>, JsonV)>, key: Seq<char>, i: int)
    requires
        0 <= i < es.len(),
        es[i].0 != key,
    ensures
        member(es.subrange(i, es.len() as int), key) == member(es.subrange(i + 1, es.len() as int), key),
{
    let s = es.subrange(i, es.len() as int);
    assert(s.drop_first() =~= es.subrange(i + 1, es.len() as int));
}

impl Json {
    /// A JSON string holding a copy of `s`.
    pub fn string(s: &str) -> (r: Json)
        ensures
            r@ == JsonV::Str(s@),
    {
        Json::Str(copy_str(s))
    }

    /// A fresh copy of this value.
    pub fn deep_copy(&self) -> (r: Json)
        ensures
            r@ == self@,
        decreases self,
    {
        match self {
            Json::Null => Json::Null,
            Json::Bool(b) => Json::Bool(*b),
            Json::Int(i) => Json::Int(*i),
            Json::Number(s) => Json::Number(copy_str(s.as_str())),
            Json::Str(s) => Json::Str(copy_str(s.as_str())),
            Json::Array(v) => {
                let mut out: Vec<Json> = Vec::new();
                let mut i: usize = 0;
                while i < v.len()
                    invariant
                        *self == Json::Array(*v),
                        i <= v@.len(),
                        out@.len() == i,
                        forall|k: int| 0 <= k < i ==> json_view(#[trigger] out@[k]) == json_view(v@[k]),
                    decreases v.len() - i,
                {
                    proof {
                        assert(decreases_to!(*self => (*self)->Array_0));
                        assert(decreases_to!(*v => v@));
                        assert(decreases_to!(v@ => v@[i as int]));
                    }
                    let c = v[i].deep_copy();
                    out.push(c);
                    i = i + 1;
                }
                let r = Json::Array(out);
                assert(r@ == self@) by {
                    if let JsonV::Array(a) = r@ {
                        if let JsonV::Array(b) = self@ {
                            assert(a =~= b);
                        }
                    }
                }
                r
            },
            Json::Object(v) => {
                let mut out: Vec<(String, Json)> = Vec::new();
                let mut i: usize = 0;
                while i < v.len()
                    invariant
                        *self == Json::Object(*v),
                        i <= v@.len(),
                        out@.len() == i,
                        forall|k: int|
                            0 <= k < i ==> (#[trigger] out@[k]).0@ == v@[k].0@ && json_view(
                                out@[k].1,
                            ) == json_view(v@[k].1),
                    decreases v.len() - i,
                {
                    proof {
                        assert(decreases_to!(*self => (*self)->Object_0));
                        assert(decreases_to!(*v => v@));
                        assert(decreases_to!(v@ => v@[i as int]));
                        assert(decreases_to!(v@[i as int] => v@[i as int].1));
                    }
                    let c = v[i].1.deep_copy();
                    let k = copy_str(v[i].0.as_str());
                    out.push((k, c));
                    i = i + 1;
                }
                let r = Json::Object(out);
                assert(r@ == self@) by {
                    if let JsonV::Object(a) = r@ {
                        if let JsonV::Object(b) = self@ {
                            assert(a =~= b);
                        }
                    }
                }
                r
            },
        }
    }

    /// `Value::get` with a string key.
    pub fn get(&self, key: &str) -> (r: Option<&Json>)
        ensures
            match r {
                Some(x) => self@.get(key@) == Some(x@),
                None => self@.get(key@) is None,
            },
    {
        match self {
            Json::Object(v) => {
                let ghost es = match self@ {
                    JsonV::Object(es) => es,
                    _ => Seq::empty(),
                };
                assert(es.subrange(0, es.len() as int) =~= es);
                let mut i: usize = 0;
                while i < v.len()
                    invariant
                        self@ == JsonV::Object(es),
                        i <= v@.len(),
                        es.len() == v@.len(),
                        forall|k: int| 0 <= k < v@.len() ==> #[trigger] es[k] == (v@[k].0@, json_view(v@[k].1)),
                        member(es, key@) == member(es.subrange(i as int, es.len() as int), key@),
                    decreases v.len() - i,
                {
                    if str_eq(v[i].0.as_str(), key) {
                        let ghost s = es.subrange(i as int, es.len() as int);
                        assert(es[i as int] == (v@[i as int].0@, json_view(v@[i as int].1)));
                        assert(s[0] == es[i as int]);
                        assert(s.len() > 0);
                        return Some(&v[i].1);
                    }
                    proof {
                        lemma_member_skip(es, key@, i as int);
                    }
                    i = i + 1;
                }
                assert(es.subrange(i as int, es.len() as int).len() == 0);
                None
            },
            _ => None,
        }
    }

    /// The string held by member `key`, if it exists and is a string.
    pub fn get_str(&self, key: &str) -> (r: Option<&String>)
        ensures
            match r {
                Some(s) => self@.get_str(key@) == Some(s@),
                None => self@.get_str(key@) is None,
            },
    {
        match self.get(key) {
            Some(Json::Str(s)) => Some(s),
            _ => None,
        }
    }

    /// Whether member `key` exists.
    pub fn has(&self, key: &str) -> (r: bool)
        ensures
            r == self@.has(key@),
    {
        self.get(key).is_some()
    }

    /// `Value::is_object`.
    pub fn is_object(&self) -> (r: bool)
        ensures
            r == self@.is_object(),
    {
        match self {
            Json::Object(_) => true,
            _ => false,
        }
    }

    /// A copy of member `key`, `null` when absent (serde_json's `value["key"].clone()`).
    pub fn index_copy(&self, key: &str) -> (r: Json)
        ensures
            r@ == self@.index(key@),
    {
        match self.get(key) {
            Some(v) => v.deep_copy(),
            None => Json::Null,
        }
    }

    /// A copy of member `key`, when it exists.
    pub fn get_copy(&self, key: &str) -> (r: Option<Json>)
        ensures
            match r {
                Some(x) => self@.get(key@) == Some(x@),
                None => self@.get(key@) is None,
            },
    {
        match self.get(key) {
            Some(v) => Some(v.deep_copy()),
            None => None,
        }
    }
}

/// The view of a member list.
pub open spec fn members_view(s: Seq<(String, Json)>) -> Seq<(Seq<char>, JsonV)> {
    Seq::new(s.len(), |i: int| (s[i].0@, s[i].1@))
}

/// An object built from a member list.
pub fn object_of(es: Vec<(String, Json)>) -> (r: Json)
    ensures
        r@ == JsonV::Object(members_view(es@)),
{
    let r = Json::Object(es);
    assert(r@ == JsonV::Object(members_view(es@))) by {
        if let JsonV::Object(a) = r@ {
            assert(a =~= members_view(es@));
        }
    }
    r
}

/// Appends member `key: value` to a member list.
pub fn push_member(es: &mut Vec<(String, Json)>, key: &str, value: Json)
    ensures
        members_view(final(es)@) == members_view(old(es)@).push((key@, value@)),
{
    es.push((copy_str(key), value));
    assert(members_view(final(es)@) =~= members_view(old(es)@).push((key@, value@)));
}

/// The view of a list of values.
pub open spec fn items_view(s: Seq<Json>) -> Seq<JsonV> {
    Seq::new(s.len(), |i: int| s[i]@)
}

/// An array holding the given values, in order.
pub fn array_of(items: Vec<Json>) -> (r: Json)
    ensures
        r@ == JsonV::Array(items_view(items@)),
{
    let r = Json::Array(items);
    assert(r@ == JsonV::Array(items_view(items@))) by {
        if let JsonV::Array(a) = r@ {
            assert(a =~= items_view(items@));
        }
    }
    r
}

/// The JSON number of an unsigned integer: an integer when it fits an `i64`, else by its
/// decimal text.
pub open spec fn unsigned_view(n: nat) -> JsonV {
    if n <= i64::MAX {
        JsonV::Int(n as int)
    } else {
        JsonV::Number(dec_text(n))
    }
}

/// The JSON number of an unsigned integer.
pub fn unsigned(n: u64) -> (r: Json)
    ensures
        r@ == unsigned_view(n as nat),
{
    if n <= i64::MAX as u64 {
        Json::Int(n as i64)
    } else {
        Json::Number(decimal_string(n as u128))
    }
}

/// An empty member list.
pub fn no_members() -> (es: Vec<(String, Json)>)
    ensures
        members_view(es@) == Seq::<(Seq<char>, JsonV)>::empty(),
{
    let es: Vec<(String, Json)> = Vec::new();
    assert(members_view(es@) =~= Seq::<(Seq<char>, JsonV)>::empty());
    es
}

/// An object with one member.
pub fn obj1(k1: &str, v1: Json) -> (r: Json)
    ensures
        r@ == JsonV::Object(seq![(k1@, v1@)]),
{
    let mut es = no_members();
    push_member(&mut es, k1, v1);
    assert(members_view(es@) =~= seq![(k1@, v1@)]);
    object_of(es)
}

/// An object with two members.
pub fn obj2(k1: &str, v1: Json, k2: &str, v2: Json) -> (r: Json)
    ensures
        r@ == JsonV::Object(seq![(k1@, v1@), (k2@, v2@)]),
{
    let mut es = no_members();
    push_member(&mut es, k1, v1);
    push_member(&mut es, k2, v2);
    assert(members_view(es@) =~= seq![(k1@, v1@), (k2@, v2@)]);
    object_of(es)
}

/// An object with three members.
pub fn obj3(k1: &str, v1: Json, k2: &str, v2: Json, k3: &str, v3: Json) -> (r: Json)
    ensures
        r@ == JsonV::Object(seq![(k1@, v1@), (k2@, v2@), (k3@, v3@)]),
{
    let mut es = no_members();
    push_member(&mut es, k1, v1);
    push_member(&mut es, k2, v2);
    push_member(&mut es, k3, v3);
    assert(members_view(es@) =~= seq![(k1@, v1@), (k2@, v2@), (k3@, v3@)]);
    object_of(es)
}

/// An object with four members.
pub fn obj4(k1: &str, v1: Json, k2: &str, v2: Json, k3: &str, v3: Json, k4: &str, v4: Json) -> (r: Json)
    ensures
        r@ == JsonV::Object(seq![(k1@, v1@), (k2@, v2@), (k3@, v3@), (k4@, v4@)]),
{
    let mut es = no_members();
    push_member(&mut es, k1, v1);
    push_member(&mut es, k2, v2);
    push_member(&mut es, k3, v3);
    push_member(&mut es, k4, v4);
    assert(members_view(es@) =~= seq![(k1@, v1@), (k2@, v2@), (k3@, v3@), (k4@, v4@)]);
    object_of(es)
}

/// An empty object.
pub fn empty_object() -> (r: Json)
    ensures
        r@ == JsonV::Object(Seq::empty()),
{
    object_of(no_members())
}

/// The JSON string or `null` for an optional string.
pub fn opt_string(o: &Option<String>) -> (r: Json)
    ensures
        r@ == opt_str_view(
            match o {
                Some(s) => Some(s@),
                None => None,
            },
        ),
{
    match o {
        Some(s) => Json::string(s.as_str()),
        None => Json::Null,
    }
}

} // verus!

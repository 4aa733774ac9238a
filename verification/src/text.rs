//! Character-level text utilities: searching, trimming, and number formatting.
//!
//! Strings are specified through their `Seq<char>` views.

use vstd::prelude::*;

verus! {

broadcast use vstd::string::group_string_axioms;

/// `String::push` appends one character to the string.
pub assume_specification[ String::push ](s: &mut String, ch: char)
    ensures
        final(s)@ == old(s)@.push(ch),
;

/// The characters of a string, in order.
pub fn chars_of(s: &str) -> (v: Vec<char>)
    ensures
        v@ == s@,
{
    let mut v: Vec<char> = Vec::new();
    for c in it: s.chars()
        invariant
            v@ == it.seq().take(it.index() as int),
    {
        v.push(c);
    }
    v
}

/// Appends every character of `chars[from..to]` to `out`.
pub fn push_chars(out: &mut String, chars: &Vec<char>, from: usize, to: usize)
    requires
        from <= to <= chars@.len(),
    ensures
        final(out)@ == old(out)@ + chars@.subrange(from as int, to as int),
{
    let mut i = from;
    while i < to
        invariant
            from <= i <= to <= chars@.len(),
            out@ == old(out)@ + chars@.subrange(from as int, i as int),
        decreases to - i,
    {
        out.push(chars[i]);
        assert(chars@.subrange(from as int, i + 1) =~= chars@.subrange(from as int, i as int).push(
            chars@[i as int],
        ));
        i = i + 1;
    }
}

/// Builds a string from a character slice `chars[from..to]`.
pub fn string_of_range(chars: &Vec<char>, from: usize, to: usize) -> (s: String)
    requires
        from <= to <= chars@.len(),
    ensures
        s@ == chars@.subrange(from as int, to as int),
{
    let mut s = String::new();
    push_chars(&mut s, chars, from, to);
    assert(Seq::<char>::empty() + chars@.subrange(from as int, to as int) =~= chars@.subrange(
        from as int,
        to as int,
    ));
    s
}

/// A fresh copy of a string.
pub fn copy_str(s: &str) -> (r: String)
    ensures
        r@ == s@,
{
    s.to_string()
}

/// Appends a string slice to `out`.
pub fn append_str(out: &mut String, s: &str)
    ensures
        final(out)@ == old(out)@ + s@,
{
    let chars = chars_of(s);
    push_chars(out, &chars, 0, chars.len());
    assert(chars@.subrange(0, chars@.len() as int) =~= s@);
}

/// Whether two character sequences agree at every position of the shorter one's length.
pub fn seq_eq(a: &Vec<char>, b: &Vec<char>) -> (r: bool)
    ensures
        r == (a@ == b@),
{
    if a.len() != b.len() {
        return false;
    }
    let mut i: usize = 0;
    while i < a.len()
        invariant
            a@.len() == b@.len(),
            i <= a@.len(),
            forall|j: int| 0 <= j < i ==> a@[j] == b@[j],
        decreases a.len() - i,
    {
        if a[i] != b[i] {
            return false;
        }
        i = i + 1;
    }
    assert(a@ =~= b@);
    true
}

/// String equality by characters.
pub fn str_eq(a: &str, b: &str) -> (r: bool)
    ensures
        r == (a@ == b@),
{
    let va = chars_of(a);
    let vb = chars_of(b);
    seq_eq(&va, &vb)
}

/// `s` begins with `p`.
pub open spec fn starts_with(s: Seq<char>, p: Seq<char>) -> bool {
    p.len() <= s.len() && s.subrange(0, p.len() as int) == p
}

/// `p` occurs in `s` at position `i`.
pub open spec fn occurs_at(s: Seq<char>, p: Seq<char>, i: int) -> bool {
    0 <= i && i + p.len() <= s.len() && s.subrange(i, i + p.len()) == p
}

/// `p` occurs somewhere in `s` (the empty pattern occurs in every string).
pub open spec fn contains(s: Seq<char>, p: Seq<char>) -> bool {
    exists|i: int| occurs_at(s, p, i)
}

/// Whether `p` occurs in `s` at position `i`, checked character by character.
pub fn matches_at(s: &Vec<char>, p: &Vec<char>, i: usize) -> (r: bool)
    ensures
        r == occurs_at(s@, p@, i as int),
{
    if i > s.len() || p.len() > s.len() - i {
        return false;
    }
    let mut j: usize = 0;
    while j < p.len()
        invariant
            i + p@.len() <= s@.len(),
            s@.len() <= usize::MAX,
            j <= p@.len(),
            forall|k: int| 0 <= k < j ==> s@[i + k] == p@[k],
        decreases p.len() - j,
    {
        if s[i + j] != p[j] {
            assert(s@.subrange(i as int, i + p@.len())[j as int] != p@[j as int]);
            return false;
        }
        j = j + 1;
    }
    assert(s@.subrange(i as int, i + p@.len()) =~= p@);
    true
}

/// Substring search on character vectors.
pub fn contains_chars(s: &Vec<char>, p: &Vec<char>) -> (r: bool)
    ensures
        r == contains(s@, p@),
{
    if p.len() > s.len() {
        assert forall|i: int| !occurs_at(s@, p@, i) by {}
        return false;
    }
    let last = s.len() - p.len();
    let mut i: usize = 0;
    while i < last
        invariant
            i <= last,
            last == s@.len() - p@.len(),
            forall|k: int| 0 <= k < i ==> !occurs_at(s@, p@, k),
        decreases last - i,
    {
        if matches_at(s, p, i) {
            return true;
        }
        i = i + 1;
    }
    if matches_at(s, p, last) {
        return true;
    }
    assert forall|k: int| !occurs_at(s@, p@, k) by {
        if 0 <= k && k + p@.len() <= s@.len() {
            assert(k <= last);
        }
    }
    false
}

/// The position of the first `c` in `s` at or after `from`, or the length of `s` when
/// there is none.
pub open spec fn find_char(s: Seq<char>, c: char, from: int) -> int
    decreases s.len() - from,
{
    if from < 0 || from >= s.len() {
        s.len() as int
    } else if s[from] == c {
        from
    } else {
        find_char(s, c, from + 1)
    }
}

/// Where `find_char` can land.
pub proof fn lemma_find_char(s: Seq<char>, c: char, from: int)
    requires
        0 <= from <= s.len(),
    ensures
        from <= find_char(s, c, from) <= s.len(),
        forall|k: int| from <= k < find_char(s, c, from) ==> s[k] != c,
        find_char(s, c, from) < s.len() ==> s[find_char(s, c, from)] == c,
    decreases s.len() - from,
{
    if from < s.len() && s[from] != c {
        lemma_find_char(s, c, from + 1);
    }
}

/// The position of the first `c` in `s[from..]`, or the length of `s`.
pub fn find_char_from(s: &Vec<char>, c: char, from: usize) -> (r: usize)
    requires
        from <= s@.len(),
    ensures
        r == find_char(s@, c, from as int),
{
    let mut i = from;
    while i < s.len()
        invariant
            from <= i <= s@.len(),
            find_char(s@, c, i as int) == find_char(s@, c, from as int),
        decreases s.len() - i,
    {
        if s[i] == c {
            return i;
        }
        i = i + 1;
    }
    i
}

/// `str::starts_with` with a string pattern.
pub fn starts_with_str(s: &str, p: &str) -> (r: bool)
    ensures
        r == starts_with(s@, p@),
{
    let vs = chars_of(s);
    let vp = chars_of(p);
    matches_at(&vs, &vp, 0)
}

/// `str::contains` with a string pattern.
pub fn contains_str(s: &str, p: &str) -> (r: bool)
    ensures
        r == contains(s@, p@),
{
    let vs = chars_of(s);
    let vp = chars_of(p);
    contains_chars(&vs, &vp)
}

/// The Unicode `White_Space` property, which `char::is_whitespace` tests.
pub open spec fn is_space(c: char) -> bool {
    ||| ('\u{9}' <= c && c <= '\u{d}')
    ||| c == ' '
    ||| c == '\u{85}'
    ||| c == '\u{a0}'
    ||| c == '\u{1680}'
    ||| ('\u{2000}' <= c && c <= '\u{200a}')
    ||| c == '\u{2028}'
    ||| c == '\u{2029}'
    ||| c == '\u{202f}'
    ||| c == '\u{205f}'
    ||| c == '\u{3000}'
}

/// Executable test of `is_space`.
pub fn is_space_char(c: char) -> (r: bool)
    ensures
        r == is_space(c),
{
    ('\u{9}' <= c && c <= '\u{d}') || c == ' ' || c == '\u{85}' || c == '\u{a0}' || c == '\u{1680}'
        || ('\u{2000}' <= c && c <= '\u{200a}') || c == '\u{2028}' || c == '\u{2029}' || c
        == '\u{202f}' || c == '\u{205f}' || c == '\u{3000}'
}

/// Number of leading whitespace characters of `s`.
pub open spec fn lead_ws(s: Seq<char>) -> nat
    decreases s.len(),
{
    if s.len() > 0 && is_space(s[0]) {
        1 + lead_ws(s.drop_first())
    } else {
        0
    }
}

/// Number of trailing whitespace characters of `s`.
pub open spec fn trail_ws(s: Seq<char>) -> nat
    decreases s.len(),
{
    if s.len() > 0 && is_space(s.last()) {
        1 + trail_ws(s.drop_last())
    } else {
        0
    }
}

/// `str::trim_start`.
pub open spec fn trim_start(s: Seq<char>) -> Seq<char> {
    s.subrange(lead_ws(s) as int, s.len() as int)
}

/// `str::trim_end`.
pub open spec fn trim_end(s: Seq<char>) -> Seq<char> {
    s.subrange(0, s.len() - trail_ws(s))
}

/// `str::trim`: both leading and trailing whitespace removed.
pub open spec fn trim(s: Seq<char>) -> Seq<char> {
    trim_end(trim_start(s))
}

proof fn lemma_lead_ws(s: Seq<char>)
    ensures
        lead_ws(s) <= s.len(),
        forall|k: int| 0 <= k < lead_ws(s) ==> is_space(#[trigger] s[k]),
        lead_ws(s) < s.len() ==> !is_space(s[lead_ws(s) as int]),
    decreases s.len(),
{
    if s.len() > 0 && is_space(s[0]) {
        lemma_lead_ws(s.drop_first());
        assert forall|k: int| 0 <= k < lead_ws(s) implies is_space(#[trigger] s[k]) by {
            if k > 0 {
                assert(s[k] == s.drop_first()[k - 1]);
            }
        }
    }
}

proof fn lemma_lead_ws_exact(s: Seq<char>, n: int)
    requires
        0 <= n <= s.len(),
        forall|k: int| 0 <= k < n ==> is_space(#[trigger] s[k]),
        n < s.len() ==> !is_space(s[n]),
    ensures
        lead_ws(s) == n,
    decreases n,
{
    if n > 0 {
        assert(is_space(s[0]));
        assert forall|k: int| 0 <= k < n - 1 implies is_space(#[trigger] s.drop_first()[k]) by {
            assert(s.drop_first()[k] == s[k + 1]);
        }
        if n < s.len() {
            assert(s.drop_first()[n - 1] == s[n]);
        }
        lemma_lead_ws_exact(s.drop_first(), n - 1);
    }
}

proof fn lemma_trail_ws_exact(s: Seq<char>, n: int)
    requires
        0 <= n <= s.len(),
        forall|k: int| s.len() - n <= k < s.len() ==> is_space(#[trigger] s[k]),
        n < s.len() ==> !is_space(s[s.len() - n - 1]),
    ensures
        trail_ws(s) == n,
    decreases n,
{
    if n > 0 {
        assert(is_space(s[s.len() - 1]));
        let d = s.drop_last();
        assert forall|k: int| d.len() - (n - 1) <= k < d.len() implies is_space(#[trigger] d[k]) by {
            assert(d[k] == s[k]);
        }
        if n < s.len() {
            assert(d[d.len() - (n - 1) - 1] == s[s.len() - n - 1]);
        }
        lemma_trail_ws_exact(d, n - 1);
    }
}

/// `find_char` stops at the first `c`.
pub proof fn lemma_find_char_at(s: Seq<char>, c: char, from: int, p: int)
    requires
        0 <= from <= p <= s.len(),
        forall|k: int| from <= k < p ==> s[k] != c,
        p == s.len() || s[p] == c,
    ensures
        find_char(s, c, from) == p,
    decreases p - from,
{
    if from < p {
        lemma_find_char_at(s, c, from + 1, p);
    }
}

proof fn lemma_trail_ws_bound(s: Seq<char>)
    ensures
        trail_ws(s) <= s.len(),
    decreases s.len(),
{
    if s.len() > 0 && is_space(s.last()) {
        lemma_trail_ws_bound(s.drop_last());
    }
}

/// A text that trimming leaves as it is neither begins nor ends with whitespace.
pub proof fn lemma_trimmed_ends(s: Seq<char>)
    requires
        trim(s) == s,
        s.len() > 0,
    ensures
        !is_space(s[0]),
        !is_space(s.last()),
{
    lemma_lead_ws(s);
    let t = trim_start(s);
    lemma_trail_ws_bound(t);
    if is_space(s[0]) {
        assert(lead_ws(s) >= 1);
        assert(trim(s).len() <= t.len());
        assert(false);
    }
    assert(lead_ws(s) == 0);
    assert(t =~= s);
    if is_space(s.last()) {
        assert(trail_ws(s) >= 1);
        assert(false);
    }
}

/// Trimming a text whose first and last characters are not whitespace changes nothing.
pub proof fn lemma_trim_noop(s: Seq<char>)
    requires
        s.len() > 0,
        !is_space(s[0]),
        !is_space(s.last()),
    ensures
        trim(s) == s,
{
    lemma_lead_ws_exact(s, 0);
    assert(trim_start(s) =~= s);
    lemma_trail_ws_exact(s, 0);
    assert(trim_end(s) =~= s);
}

/// `str::trim` on a character vector, as the bounds of the kept range.
pub fn trim_bounds(s: &Vec<char>, from: usize, to: usize) -> (r: (usize, usize))
    requires
        from <= to <= s@.len(),
    ensures
        from <= r.0 <= r.1 <= to,
        s@.subrange(r.0 as int, r.1 as int) == trim(s@.subrange(from as int, to as int)),
{
    let ghost part = s@.subrange(from as int, to as int);
    let mut a = from;
    while a < to && is_space_char(s[a])
        invariant
            from <= a <= to <= s@.len(),
            forall|k: int| from <= k < a ==> is_space(#[trigger] s@[k]),
        decreases to - a,
    {
        a = a + 1;
    }
    proof {
        assert forall|k: int| 0 <= k < a - from implies is_space(#[trigger] part[k]) by {
            assert(part[k] == s@[from + k]);
        }
        if a < to {
            assert(part[a - from] == s@[a as int]);
        }
        lemma_lead_ws_exact(part, a - from);
    }
    let ghost ts = trim_start(part);
    assert(ts =~= s@.subrange(a as int, to as int));
    let mut b = to;
    while b > a && is_space_char(s[b - 1])
        invariant
            from <= a <= b <= to <= s@.len(),
            forall|k: int| b <= k < to ==> is_space(#[trigger] s@[k]),
        decreases b - a,
    {
        b = b - 1;
    }
    proof {
        assert forall|k: int| ts.len() - (to - b) <= k < ts.len() implies is_space(#[trigger] ts[k]) by {
            assert(ts[k] == s@[a + k]);
        }
        if b > a {
            assert(ts[ts.len() - (to - b) - 1] == s@[b - 1]);
        }
        lemma_trail_ws_exact(ts, to - b);
        assert(trim(part) =~= s@.subrange(a as int, b as int));
    }
    (a, b)
}

/// `str::trim_start_matches` with a non-empty literal pattern: every leading
/// repetition of `p` is removed.
pub open spec fn strip_all(s: Seq<char>, p: Seq<char>) -> Seq<char>
    decreases s.len(),
{
    if p.len() > 0 && starts_with(s, p) {
        strip_all(s.subrange(p.len() as int, s.len() as int), p)
    } else {
        s
    }
}

/// Removes every leading repetition of `p` from `s[from..to]`; returns where the rest begins.
pub fn strip_all_from(s: &Vec<char>, p: &Vec<char>, from: usize, to: usize) -> (r: usize)
    requires
        from <= to <= s@.len(),
        p@.len() > 0,
    ensures
        from <= r <= to,
        s@.subrange(r as int, to as int) == strip_all(s@.subrange(from as int, to as int), p@),
{
    let mut a = from;
    loop
        invariant
            from <= a <= to <= s@.len(),
            p@.len() > 0,
            strip_all(s@.subrange(a as int, to as int), p@) == strip_all(
                s@.subrange(from as int, to as int),
                p@,
            ),
        decreases to - a,
    {
        let ghost cur = s@.subrange(a as int, to as int);
        if p.len() <= to - a && matches_at(s, p, a) {
            assert(cur.subrange(0, p@.len() as int) =~= s@.subrange(a as int, a + p@.len()));
            assert(cur.subrange(p@.len() as int, cur.len() as int) =~= s@.subrange(
                a + p@.len(),
                to as int,
            ));
            a = a + p.len();
        } else {
            proof {
                if starts_with(cur, p@) {
                    assert(cur.subrange(0, p@.len() as int) =~= s@.subrange(
                        a as int,
                        a + p@.len(),
                    ));
                }
            }
            return a;
        }
    }
}

/// The character of a decimal digit.
pub open spec fn digit_char(d: nat) -> char {
    if d == 0 {
        '0'
    } else if d == 1 {
        '1'
    } else if d == 2 {
        '2'
    } else if d == 3 {
        '3'
    } else if d == 4 {
        '4'
    } else if d == 5 {
        '5'
    } else if d == 6 {
        '6'
    } else if d == 7 {
        '7'
    } else if d == 8 {
        '8'
    } else {
        '9'
    }
}

/// The decimal text of a natural number, without leading zeros.
pub open spec fn dec_text(n: nat) -> Seq<char>
    decreases n,
{
    if n < 10 {
        seq![digit_char(n)]
    } else {
        dec_text(n / 10).push(digit_char(n % 10))
    }
}

/// The characters of a decimal text are digits, and it is never empty.
pub proof fn lemma_dec_text_digits(n: nat)
    ensures
        dec_text(n).len() >= 1,
        forall|k: int| 0 <= k < dec_text(n).len() ==> '0' <= #[trigger] dec_text(n)[k] <= '9',
    decreases n,
{
    if n >= 10 {
        lemma_dec_text_digits(n / 10);
        let d = dec_text(n / 10);
        assert forall|k: int| 0 <= k < dec_text(n).len() implies '0' <= #[trigger] dec_text(n)[k] <= '9' by {
            if k < d.len() {
                assert(dec_text(n)[k] == d[k]);
            }
        }
    }
}

proof fn lemma_digit_char_injective(x: nat, y: nat)
    requires
        x < 10,
        y < 10,
        digit_char(x) == digit_char(y),
    ensures
        x == y,
{
}

/// Different numbers have different decimal texts.
pub proof fn lemma_dec_text_injective(a: nat, b: nat)
    requires
        dec_text(a) == dec_text(b),
    ensures
        a == b,
    decreases a,
{
    lemma_dec_text_digits(a / 10);
    lemma_dec_text_digits(b / 10);
    if a < 10 {
        assert(dec_text(a) == seq![digit_char(a)]);
        assert(dec_text(a)[0] == digit_char(a));
        assert(dec_text(a).len() == 1);
    } else {
        assert(dec_text(a) == dec_text(a / 10).push(digit_char(a % 10)));
        assert(dec_text(a).last() == digit_char(a % 10));
    }
    if b < 10 {
        assert(dec_text(b) == seq![digit_char(b)]);
        assert(dec_text(b)[0] == digit_char(b));
    } else {
        assert(dec_text(b) == dec_text(b / 10).push(digit_char(b % 10)));
        assert(dec_text(b).last() == digit_char(b % 10));
    }
    if a < 10 && b < 10 {
        lemma_digit_char_injective(a, b);
    } else if a >= 10 && b >= 10 {
        lemma_digit_char_injective(a % 10, b % 10);
        assert(dec_text(a).drop_last() =~= dec_text(a / 10));
        assert(dec_text(b).drop_last() =~= dec_text(b / 10));
        lemma_dec_text_injective(a / 10, b / 10);
    } else {
        assert(dec_text(a).len() != dec_text(b).len());
    }
}

fn digit_to_char(d: u8) -> (c: char)
    requires
        d < 10,
    ensures
        c == digit_char(d as nat),
{
    if d == 0 {
        '0'
    } else if d == 1 {
        '1'
    } else if d == 2 {
        '2'
    } else if d == 3 {
        '3'
    } else if d == 4 {
        '4'
    } else if d == 5 {
        '5'
    } else if d == 6 {
        '6'
    } else if d == 7 {
        '7'
    } else if d == 8 {
        '8'
    } else {
        '9'
    }
}

/// Appends the decimal text of `n` to `out`.
pub fn push_decimal(out: &mut String, n: u128)
    ensures
        final(out)@ == old(out)@ + dec_text(n as nat),
    decreases n,
{
    if n >= 10 {
        push_decimal(out, n / 10);
    }
    let d = (n % 10) as u8;
    out.push(digit_to_char(d));
    proof {
        if n >= 10 {
            assert(dec_text(n as nat) == dec_text((n / 10) as nat).push(digit_char((n % 10) as nat)));
        }
    }
    assert(final(out)@ =~= old(out)@ + dec_text(n as nat)) by {
        if n < 10 {
            assert(dec_text(n as nat) == seq![digit_char(n as nat)]);
        }
    }
}

/// The decimal text of `n`, as `ToString` on an unsigned integer writes it.
pub fn decimal_string(n: u128) -> (s: String)
    ensures
        s@ == dec_text(n as nat),
{
    let mut s = String::new();
    push_decimal(&mut s, n);
    assert(s@ =~= dec_text(n as nat));
    s
}

/// The lowercase hexadecimal digit of `d < 16`.
pub open spec fn hex_char(d: nat) -> char {
    if d < 10 {
        digit_char(d)
    } else if d == 10 {
        'a'
    } else if d == 11 {
        'b'
    } else if d == 12 {
        'c'
    } else if d == 13 {
        'd'
    } else if d == 14 {
        'e'
    } else {
        'f'
    }
}

/// The lowercase hexadecimal text of `n` (`{:x}`).
pub open spec fn hex_text(n: nat) -> Seq<char>
    decreases n,
{
    if n < 16 {
        seq![hex_char(n)]
    } else {
        hex_text(n / 16).push(hex_char(n % 16))
    }
}

/// Hexadecimal text padded with zeros on the left to at least `w` characters (`{:0w$x}`).
pub open spec fn hex_padded(n: nat, w: nat) -> Seq<char> {
    let t = hex_text(n);
    if t.len() >= w {
        t
    } else {
        Seq::new((w - t.len()) as nat, |_i: int| '0') + t
    }
}

fn hex_digit_to_char(d: u8) -> (c: char)
    requires
        d < 16,
    ensures
        c == hex_char(d as nat),
{
    if d < 10 {
        digit_to_char(d)
    } else if d == 10 {
        'a'
    } else if d == 11 {
        'b'
    } else if d == 12 {
        'c'
    } else if d == 13 {
        'd'
    } else if d == 14 {
        'e'
    } else {
        'f'
    }
}

/// Appends the lowercase hexadecimal text of `n` to `out`.
pub fn push_hex(out: &mut String, n: u64)
    ensures
        final(out)@ == old(out)@ + hex_text(n as nat),
    decreases n,
{
    if n >= 16 {
        push_hex(out, n / 16);
    }
    let d = (n % 16) as u8;
    out.push(hex_digit_to_char(d));
    assert(final(out)@ =~= old(out)@ + hex_text(n as nat)) by {
        if n < 16 {
            assert(hex_text(n as nat) == seq![hex_char(n as nat)]);
        } else {
            assert(hex_text(n as nat) == hex_text((n / 16) as nat).push(hex_char((n % 16) as nat)));
        }
    }
}

proof fn lemma_hex_text_len_pos(n: nat)
    ensures
        hex_text(n).len() >= 1,
    decreases n,
{
    if n >= 16 {
        lemma_hex_text_len_pos(n / 16);
    }
}

/// Hexadecimal text of `n`, zero-padded on the left to `w` characters.
pub fn push_hex_padded(out: &mut String, n: u64, w: usize)
    ensures
        final(out)@ == old(out)@ + hex_padded(n as nat, w as nat),
{
    let mut t = String::new();
    push_hex(&mut t, n);
    let tc = chars_of(t.as_str());
    assert(tc@ =~= hex_text(n as nat));
    let mut k: usize = 0;
    if tc.len() < w {
        let pad = w - tc.len();
        while k < pad
            invariant
                k <= pad,
                pad == w - tc@.len(),
                out@ == old(out)@ + Seq::new(k as nat, |_i: int| '0'),
            decreases pad - k,
        {
            out.push('0');
            assert(Seq::new((k + 1) as nat, |_i: int| '0') =~= Seq::new(k as nat, |_i: int| '0').push('0'));
            k = k + 1;
        }
    }
    push_chars(out, &tc, 0, tc.len());
    proof {
        assert(tc@.subrange(0, tc@.len() as int) =~= tc@);
        if tc@.len() >= w {
            assert(out@ =~= old(out)@ + hex_padded(n as nat, w as nat));
        } else {
            assert(out@ =~= old(out)@ + hex_padded(n as nat, w as nat));
        }
    }
}

/// `str::to_lowercase`: Unicode lowercase mapping of a text.
pub uninterp spec fn lowercase_text(s: Seq<char>) -> Seq<char>;

/// Calls `str::to_lowercase`; the result is the Unicode lowercase mapping of `s`,
/// named `lowercase_text` and not spelled out here.
#[verifier::external_body]
pub(crate) fn to_lowercase(s: &str) -> (r: String)
    ensures
        r@ == lowercase_text(s@),
{
    s.to_lowercase()
}

} // verus!

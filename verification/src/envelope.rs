//! The quoting envelope. A reply's raw markup arrives wrapped as
//! `[quote=@<id>] <payload> [/quote]`, with whitespace allowed around the
//! whole and around the payload; this module takes the payload out.

use crate::text::{
    all_spaces, back_spaces, back_spaces_in, chars_of, has_at, is_space, lemma_back_spaces,
    lemma_back_spaces_is, lemma_skip_spaces, lemma_skip_spaces_is, lemma_trim_bounds,
    lemma_trim_idempotent, lemma_trim_of_subrange, skip_spaces, skip_spaces_in, stands_at, trim,
    trim_end, trim_start,
};
use vstd::prelude::*;

verus! {

/// The marker that opens an envelope, up to the numeric id.
pub open spec fn open_tag() -> Seq<char> {
    seq!['[', 'q', 'u', 'o', 't', 'e', '=', '@']
}

/// The marker that closes an envelope.
pub open spec fn close_tag() -> Seq<char> {
    seq!['[', '/', 'q', 'u', 'o', 't', 'e', ']']
}

/// Whether `c` is one of the digits `0` to `9`.
pub open spec fn is_digit(c: char) -> bool {
    0x30 <= c as u32 <= 0x39
}

/// Whether every character of `s` is a digit.
pub open spec fn all_digits(s: Seq<char>) -> bool {
    forall|i: int| 0 <= i < s.len() ==> is_digit(#[trigger] s[i])
}

/// The first index in `from..to` whose character is no digit, or `to` when
/// there is none.
pub open spec fn skip_digits(s: Seq<char>, from: int, to: int) -> int
    decreases to - from,
{
    if 0 <= from < to <= s.len() && is_digit(s[from]) {
        skip_digits(s, from + 1, to)
    } else {
        from
    }
}

/// Where the numeric id of the envelope in `v` ends, if `v` begins, after
/// whitespace, with the opening marker and an id of at least one digit.
pub open spec fn id_end(v: Seq<char>) -> int {
    skip_digits(v, skip_spaces(v, 0, v.len() as int) + 8, v.len() as int)
}

/// Whether `v` has the shape of an envelope: whitespace, the opening marker,
/// one digit or more and `]`; then anything; then the closing marker and
/// whitespace up to the end.
pub open spec fn is_envelope(v: Seq<char>) -> bool {
    let n = v.len() as int;
    let a = skip_spaces(v, 0, n);
    let c = id_end(v);
    let e = back_spaces(v, 0, n);
    &&& has_at(v, a, open_tag())
    &&& a + 8 < c < n
    &&& v[c] == ']'
    &&& c + 1 + 8 <= e
    &&& has_at(v, e - 8, close_tag())
}

/// What stands between the two markers of the envelope `v`.
pub open spec fn envelope_body(v: Seq<char>) -> Seq<char> {
    v.subrange(id_end(v) + 1, back_spaces(v, 0, v.len() as int) - 8)
}

/// The payload of `v`: the trimmed body if `v` is an envelope, nothing
/// otherwise.
pub open spec fn envelope_payload(v: Seq<char>) -> Option<Seq<char>> {
    if is_envelope(v) {
        Some(trim(envelope_body(v)))
    } else {
        None
    }
}

/// The payload of `v`, or the empty sequence where `v` is no envelope.
pub open spec fn payload_or_empty(v: Seq<char>) -> Seq<char> {
    match envelope_payload(v) {
        Some(p) => p,
        None => Seq::empty(),
    }
}

/// An envelope put together from its parts.
pub open spec fn wrap(lead: Seq<char>, id: Seq<char>, body: Seq<char>, trail: Seq<char>) -> Seq<
    char,
> {
    lead + open_tag() + id + seq![']'] + body + close_tag() + trail
}

/// What `skip_digits` returns: it lies in the range, only digits come before
/// it, and no digit stands at it.
pub proof fn lemma_skip_digits(s: Seq<char>, from: int, to: int)
    requires
        0 <= from <= to <= s.len(),
    ensures
        from <= skip_digits(s, from, to) <= to,
        forall|i: int| from <= i < skip_digits(s, from, to) ==> is_digit(#[trigger] s[i]),
        skip_digits(s, from, to) < to ==> !is_digit(s[skip_digits(s, from, to)]),
    decreases to - from,
{
    if from < to && is_digit(s[from]) {
        lemma_skip_digits(s, from + 1, to);
    }
}

/// An index with only digits before it and none at it is the one that
/// `skip_digits` finds.
pub proof fn lemma_skip_digits_is(s: Seq<char>, from: int, to: int, at: int)
    requires
        0 <= from <= at <= to <= s.len(),
        forall|i: int| from <= i < at ==> is_digit(#[trigger] s[i]),
        at < to ==> !is_digit(s[at]),
    ensures
        skip_digits(s, from, to) == at,
    decreases to - from,
{
    if from < at {
        assert(is_digit(s[from]));
        lemma_skip_digits_is(s, from + 1, to, at);
    }
}

/// Every envelope parses: whatever the whitespace around it, the id and the
/// body, the payload of the wrapped text is the trimmed body.
pub proof fn lemma_wrapped_parses(lead: Seq<char>, id: Seq<char>, body: Seq<char>, trail: Seq<char>)
    requires
        all_spaces(lead),
        all_spaces(trail),
        all_digits(id),
        id.len() > 0,
    ensures
        is_envelope(wrap(lead, id, body, trail)),
        envelope_body(wrap(lead, id, body, trail)) == body,
        envelope_payload(wrap(lead, id, body, trail)) == Some(trim(body)),
{
    let v = wrap(lead, id, body, trail);
    let n = v.len() as int;
    let a = lead.len() as int;
    let b = a + 8;
    let c = b + id.len();
    let d = c + 1;
    let f = d + body.len();
    let e = f + 8;
    assert(n == e + trail.len());
    assert forall|i: int| 0 <= i < a implies is_space(#[trigger] v[i]) by {
        assert(v[i] == lead[i]);
    }
    assert(v[a] == open_tag()[0]);
    lemma_skip_spaces_is(v, 0, n, a);
    assert(v.subrange(a, b) =~= open_tag());
    assert forall|i: int| b <= i < c implies is_digit(#[trigger] v[i]) by {
        assert(v[i] == id[i - b]);
    }
    assert(v[c] == ']');
    lemma_skip_digits_is(v, b, n, c);
    assert forall|i: int| e <= i < n implies is_space(#[trigger] v[i]) by {
        assert(v[i] == trail[i - e]);
    }
    assert(v[e - 1] == close_tag()[7]);
    lemma_back_spaces_is(v, 0, n, e);
    assert(v.subrange(f, e) =~= close_tag());
    assert(v.subrange(d, f) =~= body);
}

/// Only envelopes parse: a text with a payload is whitespace, the opening
/// marker, an id of digits, `]`, its body, the closing marker and whitespace.
pub proof fn lemma_parsed_is_wrapped(v: Seq<char>)
    requires
        is_envelope(v),
    ensures
        ({
            let n = v.len() as int;
            let a = skip_spaces(v, 0, n);
            let c = id_end(v);
            let e = back_spaces(v, 0, n);
            &&& all_spaces(v.subrange(0, a))
            &&& all_digits(v.subrange(a + 8, c))
            &&& all_spaces(v.subrange(e, n))
            &&& v == wrap(
                v.subrange(0, a),
                v.subrange(a + 8, c),
                envelope_body(v),
                v.subrange(e, n),
            )
        }),
{
    let n = v.len() as int;
    let a = skip_spaces(v, 0, n);
    let c = id_end(v);
    let e = back_spaces(v, 0, n);
    lemma_skip_spaces(v, 0, n);
    lemma_skip_digits(v, a + 8, n);
    lemma_back_spaces(v, 0, n);
    let lead = v.subrange(0, a);
    let id = v.subrange(a + 8, c);
    let trail = v.subrange(e, n);
    assert forall|i: int| 0 <= i < lead.len() implies is_space(#[trigger] lead[i]) by {
        assert(lead[i] == v[i]);
    }
    assert forall|i: int| 0 <= i < id.len() implies is_digit(#[trigger] id[i]) by {
        assert(id[i] == v[i + a + 8]);
    }
    assert forall|i: int| 0 <= i < trail.len() implies is_space(#[trigger] trail[i]) by {
        assert(trail[i] == v[i + e]);
    }
    let w = wrap(lead, id, envelope_body(v), trail);
    assert(w.len() == n);
    assert forall|i: int| 0 <= i < n implies w[i] == v[i] by {
        if a <= i < a + 8 {
            assert(v.subrange(a, a + 8)[i - a] == v[i]);
        }
        if e - 8 <= i < e {
            assert(v.subrange(e - 8, e)[i - (e - 8)] == v[i]);
        }
    }
    assert(w =~= v);
}

/// A payload has no whitespace at either end: trimming it changes nothing.
pub proof fn lemma_payload_trimmed(v: Seq<char>)
    ensures
        trim(payload_or_empty(v)) == payload_or_empty(v),
{
    if is_envelope(v) {
        lemma_trim_idempotent(envelope_body(v));
    } else {
        lemma_trim_idempotent(Seq::empty());
        assert(trim(Seq::<char>::empty()) =~= Seq::<char>::empty());
    }
}

/// A payload is shorter than its envelope: the markers and the id are gone.
pub proof fn lemma_payload_shorter(v: Seq<char>)
    requires
        is_envelope(v),
    ensures
        payload_or_empty(v).len() + 18 <= v.len(),
{
    let n = v.len() as int;
    lemma_skip_spaces(v, 0, n);
    lemma_skip_digits(v, skip_spaces(v, 0, n) + 8, n);
    lemma_back_spaces(v, 0, n);
    let body = envelope_body(v);
    lemma_trim_bounds(body, 0, body.len() as int);
}

/// Taking the payload of a payload gives the same again exactly where the
/// payload is empty: a payload that is not empty either is no envelope, and
/// then its own payload is empty, or it is one, and then its own payload is
/// shorter.
pub proof fn lemma_payload_of_payload(v: Seq<char>)
    ensures
        payload_or_empty(payload_or_empty(v)) == payload_or_empty(v) <==> payload_or_empty(
            v,
        ).len() == 0,
{
    let p = payload_or_empty(v);
    if is_envelope(p) {
        lemma_payload_shorter(p);
    } else {
        assert(payload_or_empty(p) =~= Seq::empty());
        if p.len() == 0 {
            assert(p =~= Seq::empty());
        }
    }
}

/// A payload that is wrapped again comes out of the new envelope unchanged.
pub proof fn lemma_rewrapped_payload(v: Seq<char>, lead: Seq<char>, id: Seq<char>, trail: Seq<char>)
    requires
        all_spaces(lead),
        all_spaces(trail),
        all_digits(id),
        id.len() > 0,
    ensures
        payload_or_empty(wrap(lead, id, payload_or_empty(v), trail)) == payload_or_empty(v),
{
    lemma_wrapped_parses(lead, id, payload_or_empty(v), trail);
    lemma_payload_trimmed(v);
}

/// Tells whether `c` is one of the digits `0` to `9`.
pub fn char_is_digit(c: char) -> (b: bool)
    ensures
        b == is_digit(c),
{
    let n: u32 = c as u32;
    0x30 <= n && n <= 0x39
}

/// The first index in `from..to` whose character is no digit, or `to` when
/// there is none; `from` where that is no range of `chars`.
pub fn skip_digits_in(chars: &Vec<char>, from: usize, to: usize) -> (at: usize)
    ensures
        at == skip_digits(chars@, from as int, to as int),
        from <= to <= chars@.len() ==> from <= at <= to,
{
    if from > to || to > chars.len() {
        return from;
    }
    let mut i: usize = from;
    while i < to && char_is_digit(chars[i])
        invariant
            from <= i <= to <= chars@.len(),
            skip_digits(chars@, from as int, to as int) == skip_digits(chars@, i as int, to as int),
        decreases to - i,
    {
        i += 1;
    }
    i
}

/// Finds the payload of the envelope in `chars`: the range of indices that
/// it occupies, or `None` where `chars` is no envelope.
pub fn locate_payload(chars: &Vec<char>) -> (span: Option<(usize, usize)>)
    ensures
        span is Some <==> is_envelope(chars@),
        span matches Some((p, q)) ==> {
            let from = id_end(chars@) + 1;
            let to = back_spaces(chars@, 0, chars@.len() as int) - 8;
            &&& p == trim_start(chars@, from, to)
            &&& q == trim_end(chars@, from, to)
            &&& p <= q <= chars@.len()
            &&& chars@.subrange(p as int, q as int) == trim(envelope_body(chars@))
        },
{
    let n: usize = chars.len();
    let open: Vec<char> = vec!['[', 'q', 'u', 'o', 't', 'e', '=', '@'];
    let close: Vec<char> = vec!['[', '/', 'q', 'u', 'o', 't', 'e', ']'];
    assert(open@ =~= open_tag());
    assert(close@ =~= close_tag());
    let a = skip_spaces_in(chars, 0, n);
    if !stands_at(chars, a, &open) {
        return None;
    }
    let c = skip_digits_in(chars, a + 8, n);
    if c == a + 8 || c == n || chars[c] != ']' {
        return None;
    }
    let e = back_spaces_in(chars, 0, n);
    if e < 8 || e - 8 < c + 1 || !stands_at(chars, e - 8, &close) {
        return None;
    }
    let q = back_spaces_in(chars, c + 1, e - 8);
    let p = skip_spaces_in(chars, c + 1, q);
    proof {
        lemma_trim_of_subrange(chars@, c + 1, e - 8);
        lemma_trim_bounds(chars@, c + 1, e - 8);
    }
    Some((p, q))
}

/// Parses `value` as an envelope and returns its payload, with the
/// whitespace at its two ends taken off; `None` where `value` is no
/// envelope.
pub fn parse_envelope(value: &str) -> (payload: Option<String>)
    ensures
        payload is Some <==> is_envelope(value@),
        payload matches Some(p) ==> envelope_payload(value@) == Some(p@),
{
    let chars = chars_of(value);
    match locate_payload(&chars) {
        Some((p, q)) => Some(value.substring_char(p, q).to_owned()),
        None => None,
    }
}

/// The payload of `value`, or the empty string where `value` is no envelope.
pub fn extract_payload(value: &str) -> (payload: String)
    ensures
        payload@ == payload_or_empty(value@),
{
    match parse_envelope(value) {
        Some(p) => p,
        None => String::new(),
    }
}

} // verus!

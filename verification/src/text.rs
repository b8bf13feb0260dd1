//! Characters and strings: what counts as whitespace, trimming, and the
//! passage between `str` and sequences of characters.

use vstd::prelude::*;

verus! {

/// Whether `c` is a whitespace character: one of the code points that carry
/// the Unicode property `White_Space`.
pub open spec fn is_space(c: char) -> bool {
    let n = c as u32;
    ||| 0x09 <= n <= 0x0d
    ||| n == 0x20
    ||| n == 0x85
    ||| n == 0xa0
    ||| n == 0x1680
    ||| 0x2000 <= n <= 0x200a
    ||| n == 0x2028
    ||| n == 0x2029
    ||| n == 0x202f
    ||| n == 0x205f
    ||| n == 0x3000
}

/// Whether every character of `s` is whitespace.
pub open spec fn all_spaces(s: Seq<char>) -> bool {
    forall|i: int| 0 <= i < s.len() ==> is_space(#[trigger] s[i])
}

/// The first index in `from..to` whose character is not whitespace, or `to`
/// when there is none.
pub open spec fn skip_spaces(s: Seq<char>, from: int, to: int) -> int
    decreases to - from,
{
    if 0 <= from < to <= s.len() && is_space(s[from]) {
        skip_spaces(s, from + 1, to)
    } else {
        from
    }
}

/// The end of `from..to` once the whitespace at its end is cut off: the
/// least index `e` in that range with nothing but whitespace in `e..to`.
pub open spec fn back_spaces(s: Seq<char>, from: int, to: int) -> int
    decreases to - from,
{
    if 0 <= from < to <= s.len() && is_space(s[to - 1]) {
        back_spaces(s, from, to - 1)
    } else {
        to
    }
}

/// Where the trimmed part of `from..to` begins.
pub open spec fn trim_start(s: Seq<char>, from: int, to: int) -> int {
    skip_spaces(s, from, back_spaces(s, from, to))
}

/// Where the trimmed part of `from..to` ends.
pub open spec fn trim_end(s: Seq<char>, from: int, to: int) -> int {
    back_spaces(s, from, to)
}

/// `s` without the whitespace at its two ends.
pub open spec fn trim(s: Seq<char>) -> Seq<char> {
    s.subrange(trim_start(s, 0, s.len() as int), trim_end(s, 0, s.len() as int))
}

/// Whether `s` holds nothing but whitespace.
pub open spec fn is_blank(s: Seq<char>) -> bool {
    trim(s).len() == 0
}

/// What `skip_spaces` returns: it lies in the range, only whitespace comes
/// before it, and no whitespace stands at it.
pub proof fn lemma_skip_spaces(s: Seq<char>, from: int, to: int)
    requires
        0 <= from <= to <= s.len(),
    ensures
        from <= skip_spaces(s, from, to) <= to,
        forall|i: int| from <= i < skip_spaces(s, from, to) ==> is_space(#[trigger] s[i]),
        skip_spaces(s, from, to) < to ==> !is_space(s[skip_spaces(s, from, to)]),
    decreases to - from,
{
    if from < to && is_space(s[from]) {
        lemma_skip_spaces(s, from + 1, to);
    }
}

/// What `back_spaces` returns: it lies in the range, only whitespace comes
/// after it, and no whitespace stands just before it.
pub proof fn lemma_back_spaces(s: Seq<char>, from: int, to: int)
    requires
        0 <= from <= to <= s.len(),
    ensures
        from <= back_spaces(s, from, to) <= to,
        forall|i: int| back_spaces(s, from, to) <= i < to ==> is_space(#[trigger] s[i]),
        from < back_spaces(s, from, to) ==> !is_space(s[back_spaces(s, from, to) - 1]),
    decreases to - from,
{
    if from < to && is_space(s[to - 1]) {
        lemma_back_spaces(s, from, to - 1);
    }
}

/// An index with only whitespace before it and none at it is the one that
/// `skip_spaces` finds.
pub proof fn lemma_skip_spaces_is(s: Seq<char>, from: int, to: int, at: int)
    requires
        0 <= from <= at <= to <= s.len(),
        forall|i: int| from <= i < at ==> is_space(#[trigger] s[i]),
        at < to ==> !is_space(s[at]),
    ensures
        skip_spaces(s, from, to) == at,
    decreases to - from,
{
    if from < at {
        assert(is_space(s[from]));
        lemma_skip_spaces_is(s, from + 1, to, at);
    }
}

/// An index with only whitespace from it on and none just before it is the
/// one that `back_spaces` finds.
pub proof fn lemma_back_spaces_is(s: Seq<char>, from: int, to: int, at: int)
    requires
        0 <= from <= at <= to <= s.len(),
        forall|i: int| at <= i < to ==> is_space(#[trigger] s[i]),
        from < at ==> !is_space(s[at - 1]),
    ensures
        back_spaces(s, from, to) == at,
    decreases to - from,
{
    if at < to {
        assert(is_space(s[to - 1]));
        lemma_back_spaces_is(s, from, to - 1, at);
    }
}

/// The trimmed part of a range lies in the range, and it is empty or has a
/// character that is no whitespace at each end.
pub proof fn lemma_trim_bounds(s: Seq<char>, from: int, to: int)
    requires
        0 <= from <= to <= s.len(),
    ensures
        from <= trim_start(s, from, to) <= trim_end(s, from, to) <= to,
        trim_start(s, from, to) < trim_end(s, from, to) ==> !is_space(s[trim_start(s, from, to)])
            && !is_space(s[trim_end(s, from, to) - 1]),
        forall|i: int| from <= i < trim_start(s, from, to) ==> is_space(#[trigger] s[i]),
        forall|i: int| trim_end(s, from, to) <= i < to ==> is_space(#[trigger] s[i]),
{
    lemma_back_spaces(s, from, to);
    lemma_skip_spaces(s, from, back_spaces(s, from, to));
}

/// Trimming a part of a sequence is trimming the range that the part
/// occupies.
pub proof fn lemma_trim_of_subrange(s: Seq<char>, from: int, to: int)
    requires
        0 <= from <= to <= s.len(),
    ensures
        trim(s.subrange(from, to)) == s.subrange(
            trim_start(s, from, to),
            trim_end(s, from, to),
        ),
{
    let part = s.subrange(from, to);
    lemma_trim_bounds(s, from, to);
    lemma_back_spaces(s, from, to);
    let a = trim_start(s, from, to);
    let b = trim_end(s, from, to);
    if from < b {
        assert(part[b - from - 1] == s[b - 1]);
    }
    if a < b {
        assert(part[a - from] == s[a]);
    }
    assert forall|i: int| b - from <= i < part.len() implies is_space(#[trigger] part[i]) by {
        assert(part[i] == s[i + from]);
    }
    lemma_back_spaces_is(part, 0, part.len() as int, b - from);
    assert forall|i: int| 0 <= i < a - from implies is_space(#[trigger] part[i]) by {
        assert(part[i] == s[i + from]);
    }
    lemma_skip_spaces_is(part, 0, b - from, a - from);
    assert(part.subrange(a - from, b - from) =~= s.subrange(a, b));
}

/// Trimming what is already trimmed changes nothing.
pub proof fn lemma_trim_idempotent(s: Seq<char>)
    ensures
        trim(trim(s)) == trim(s),
{
    let n = s.len() as int;
    lemma_trim_bounds(s, 0, n);
    let a = trim_start(s, 0, n);
    let b = trim_end(s, 0, n);
    let t = trim(s);
    let m = t.len() as int;
    assert(m == b - a);
    if a < b {
        assert(t[m - 1] == s[b - 1]);
        assert(t[0] == s[a]);
    }
    lemma_back_spaces_is(t, 0, m, m);
    lemma_skip_spaces_is(t, 0, m, 0);
    assert(t.subrange(0, m) =~= t);
}

/// A sequence is blank exactly when all of its characters are whitespace.
pub proof fn lemma_blank_is_all_spaces(s: Seq<char>)
    ensures
        is_blank(s) <==> all_spaces(s),
{
    let n = s.len() as int;
    lemma_trim_bounds(s, 0, n);
    let a = trim_start(s, 0, n);
    let b = trim_end(s, 0, n);
    if a == b {
        assert forall|i: int| 0 <= i < n implies is_space(#[trigger] s[i]) by {
            if i < a {
            } else {
            }
        }
    }
}

/// Tells whether `c` is a whitespace character.
pub fn char_is_space(c: char) -> (b: bool)
    ensures
        b == is_space(c),
{
    let n: u32 = c as u32;
    (0x09 <= n && n <= 0x0d) || n == 0x20 || n == 0x85 || n == 0xa0 || n == 0x1680 || (0x2000 <= n
        && n <= 0x200a) || n == 0x2028 || n == 0x2029 || n == 0x202f || n == 0x205f || n
        == 0x3000
}

/// The characters of `s`, in order.
pub fn chars_of(s: &str) -> (v: Vec<char>)
    ensures
        v@ == s@,
{
    let mut v: Vec<char> = Vec::new();
    for c in it: s.chars()
        invariant
            v@ == it.seq().take(it.index() as int),
    {
        v.push(c);
    }
    v
}

/// The first index in `from..to` whose character is not whitespace, or `to`
/// when there is none; `from` where that is no range of `chars`.
pub fn skip_spaces_in(chars: &Vec<char>, from: usize, to: usize) -> (at: usize)
    ensures
        at == skip_spaces(chars@, from as int, to as int),
        from <= to <= chars@.len() ==> from <= at <= to,
{
    if from > to || to > chars.len() {
        return from;
    }
    let mut i: usize = from;
    while i < to && char_is_space(chars[i])
        invariant
            from <= i <= to <= chars@.len(),
            skip_spaces(chars@, from as int, to as int) == skip_spaces(chars@, i as int, to as int),
        decreases to - i,
    {
        i += 1;
    }
    i
}

/// The end of `from..to` once the whitespace at its end is cut off; `to`
/// where that is no range of `chars`.
pub fn back_spaces_in(chars: &Vec<char>, from: usize, to: usize) -> (at: usize)
    ensures
        at == back_spaces(chars@, from as int, to as int),
        from <= to <= chars@.len() ==> from <= at <= to,
{
    if from > to || to > chars.len() {
        return to;
    }
    let mut i: usize = to;
    while from < i && char_is_space(chars[i - 1])
        invariant
            from <= i <= to <= chars@.len(),
            back_spaces(chars@, from as int, to as int) == back_spaces(
                chars@,
                from as int,
                i as int,
            ),
        decreases i - from,
    {
        i -= 1;
    }
    i
}

/// Tells whether `s` holds nothing but whitespace.
pub fn str_is_blank(s: &str) -> (b: bool)
    ensures
        b == is_blank(s@),
{
    let chars = chars_of(s);
    let end = back_spaces_in(&chars, 0, chars.len());
    let start = skip_spaces_in(&chars, 0, end);
    proof {
        lemma_trim_bounds(chars@, 0, chars@.len() as int);
    }
    start == end
}

/// Whether `pat` stands in `s` at index `at`.
pub open spec fn has_at(s: Seq<char>, at: int, pat: Seq<char>) -> bool {
    &&& 0 <= at
    &&& at + pat.len() <= s.len()
    &&& s.subrange(at, at + pat.len()) == pat
}

/// Tells whether `pat` stands in `chars` at index `at`.
pub fn stands_at(chars: &Vec<char>, at: usize, pat: &Vec<char>) -> (b: bool)
    ensures
        b == has_at(chars@, at as int, pat@),
{
    let n: usize = chars.len();
    let m: usize = pat.len();
    if at > n || m > n - at {
        return false;
    }
    let mut k: usize = 0;
    while k < m
        invariant
            at + m <= n,
            n == chars@.len(),
            m == pat@.len(),
            k <= m,
            forall|j: int| 0 <= j < k ==> chars@[at + j] == pat@[j],
        decreases m - k,
    {
        if chars[at + k] != pat[k] {
            proof {
                assert(chars@.subrange(at as int, at + m)[k as int] == chars@[at + k]);
            }
            return false;
        }
        k += 1;
    }
    proof {
        assert(chars@.subrange(at as int, at + m) =~= pat@);
    }
    true
}

} // verus!

//! Settings as they come from the environment: text that stands for a
//! switch.

use crate::text::{chars_of, stands_at};
use vstd::prelude::*;

verus! {

/// The lowercase form of a text, as `str::to_lowercase` gives it.
pub uninterp spec fn lowercase(s: Seq<char>) -> Seq<char>;

/// `str::to_lowercase` of the standard library: the result is the lowercase
/// equivalent of `s`, which depends on `s` alone. Nothing else is claimed
/// of it here.
#[verifier::external_body]
fn to_lowercase(s: &str) -> (lowered: String)
    ensures
        lowered@ == lowercase(s@),
{
    s.to_lowercase()
}

/// The switch that a text in lowercase stands for: `true`, `false`, or
/// none.
pub open spec fn switch_of(lowered: Seq<char>) -> Option<bool> {
    if lowered == seq!['t', 'r', 'u', 'e'] {
        Some(true)
    } else if lowered == seq!['f', 'a', 'l', 's', 'e'] {
        Some(false)
    } else {
        None
    }
}

/// The value of a switch, given the text that was found for it, if any,
/// and the value it has by default: what the text stands for once it is put
/// in lowercase, and the default where there is no text or it stands for
/// nothing.
pub open spec fn flag_of(value: Option<Seq<char>>, default: bool) -> bool {
    match value {
        Some(text) => match switch_of(lowercase(text)) {
            Some(on) => on,
            None => default,
        },
        None => default,
    }
}

/// Reads a text in lowercase as a switch: `true` and `false` stand for
/// themselves, anything else for nothing.
pub fn parse_switch(lowered: &str) -> (switch: Option<bool>)
    ensures
        switch == switch_of(lowered@),
{
    let chars = chars_of(lowered);
    let yes: Vec<char> = vec!['t', 'r', 'u', 'e'];
    let no: Vec<char> = vec!['f', 'a', 'l', 's', 'e'];
    assert(yes@ =~= seq!['t', 'r', 'u', 'e']);
    assert(no@ =~= seq!['f', 'a', 'l', 's', 'e']);
    assert(chars@.subrange(0, chars@.len() as int) =~= chars@);
    if chars.len() == 4 && stands_at(&chars, 0, &yes) {
        Some(true)
    } else if chars.len() == 5 && stands_at(&chars, 0, &no) {
        Some(false)
    } else {
        None
    }
}

/// The value of a switch: `value` is the text that the environment holds
/// for it, if it holds one, and `default` the value it has otherwise. The
/// text counts whatever its case; a text that is neither `true` nor `false`
/// counts as none.
pub fn flag_value(value: Option<&str>, default: bool) -> (flag: bool)
    ensures
        flag == flag_of(
            match value {
                Some(text) => Some(text@),
                None => None,
            },
            default,
        ),
{
    match value {
        Some(text) => {
            let lowered = to_lowercase(text);
            match parse_switch(lowered.as_str()) {
                Some(on) => on,
                None => default,
            }
        },
        None => default,
    }
}

} // verus!

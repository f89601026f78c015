//! Text helpers shared by the store, the handlers and the hub.

use vstd::prelude::*;
use vstd::std_specs::iter::IteratorSpec;
use vstd::string::*;
use vstd::utf8::*;

verus! {

/// Whether `c` is white space: the ASCII blank and control blanks, and the
/// Unicode separators that count as white space.
pub open spec fn is_whitespace(c: char) -> bool {
    let n = c as u32;
    ||| 0x09 <= n <= 0x0D
    ||| n == 0x20
    ||| n == 0x85
    ||| n == 0xA0
    ||| n == 0x1680
    ||| 0x2000 <= n <= 0x200A
    ||| n == 0x2028
    ||| n == 0x2029
    ||| n == 0x202F
    ||| n == 0x205F
    ||| n == 0x3000
}

/// Whether nothing would be left of `s` once white space is trimmed from
/// both ends: every character of it is white space.
pub open spec fn is_blank(s: Seq<char>) -> bool {
    forall|i: int| 0 <= i < s.len() ==> is_whitespace(#[trigger] s[i])
}

/// Whether `s` begins with `prefix`.
pub open spec fn has_prefix(s: Seq<char>, prefix: Seq<char>) -> bool {
    prefix.len() <= s.len() && s.subrange(0, prefix.len() as int) == prefix
}

/// An optional text as plain values.
pub open spec fn opt_view(s: Option<String>) -> Option<Seq<char>> {
    match s {
        Some(t) => Some(t@),
        None => None,
    }
}

/// The text, or the empty text where there is none.
pub open spec fn or_empty(s: Option<Seq<char>>) -> Seq<char> {
    match s {
        Some(t) => t,
        None => Seq::empty(),
    }
}

/// Decides `is_whitespace` for one character.
pub fn char_is_whitespace(c: char) -> (r: bool)
    ensures
        r == is_whitespace(c),
{
    let n: u32 = c as u32;
    (0x09 <= n && n <= 0x0D) || n == 0x20 || n == 0x85 || n == 0xA0 || n == 0x1680 || (0x2000 <= n
        && n <= 0x200A) || n == 0x2028 || n == 0x2029 || n == 0x202F || n == 0x205F || n == 0x3000
}

/// Decides `is_blank`: true for the empty string and for one made of
/// white space only.
pub fn str_is_blank(s: &str) -> (r: bool)
    ensures
        r == is_blank(s@),
{
    let mut blank = true;
    for c in it: s.chars()
        invariant
            it.seq() == s@,
            blank == (forall|j: int| 0 <= j < it.index() ==> is_whitespace(#[trigger] s@[j])),
    {
        blank = blank && char_is_whitespace(c);
    }
    blank
}

/// Decides `has_prefix`.
pub fn str_has_prefix(s: &str, prefix: &str) -> (r: bool)
    ensures
        r == has_prefix(s@, prefix@),
{
    let mut rest = prefix.chars();
    for c in it: s.chars()
        invariant
            it.seq() == s@,
            it.index() <= prefix@.len(),
            rest.remaining() == prefix@.skip(it.index() as int),
            forall|j: int| 0 <= j < it.index() ==> s@[j] == prefix@[j],
    {
        let ghost i = it.index() as int;
        match rest.next() {
            Some(d) => {
                assert(d == prefix@[i]);
                if c != d {
                    assert(prefix@.len() <= s@.len() ==> s@.subrange(0, prefix@.len() as int)[i]
                        == s@[i]);
                    return false;
                }
                assert(prefix@.skip(i).drop_first() =~= prefix@.skip(i + 1));
            },
            None => {
                assert(s@.subrange(0, prefix@.len() as int) =~= prefix@);
                return true;
            },
        }
    }
    let done = rest.next().is_none();
    proof {
        if done {
            assert(s@.subrange(0, prefix@.len() as int) =~= prefix@);
        }
    }
    done
}

/// Joins two strings into a new one.
pub fn join(a: &str, b: &str) -> (r: String)
    ensures
        r@ == a@ + b@,
{
    String::from_str(a).concat(b)
}

/// Reads bytes as UTF-8 text through `String::from_utf8` of std, which
/// accepts exactly the well-formed encodings and hands back the characters
/// they encode.
#[verifier::external_body]
pub(crate) fn decode_utf8_text(bytes: Vec<u8>) -> (r: Option<String>)
    ensures
        r.is_some() == valid_utf8(bytes@),
        r matches Some(s) ==> s@ == decode_utf8(bytes@),
{
    String::from_utf8(bytes).ok()
}

} // verus!

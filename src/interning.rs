//! The process-wide string interner: `ustr`'s cache and its `Ustr` handles.

use core::cmp::Ordering;
use ustr::Ustr;
use vstd::prelude::*;
use vstd::utf8::encode_utf8;

use crate::ordering::lex_cmp;

verus! {

/// `ustr`'s handle to a string in its global cache; opaque to proofs.
#[verifier::external_type_specification]
#[verifier::external_body]
pub struct ExUstr(Ustr);

/// The string in the cache that a handle stands for.
pub uninterp spec fn ustr_text(u: Ustr) -> Seq<char>;

/// What `Ustr`'s `Debug` writes for a handle whose string is `s`.
pub uninterp spec fn ustr_debug_text(s: Seq<char>) -> Seq<char>;

/// A character that `str`'s `Debug` writes as itself: printable ASCII other
/// than the quotes and the backslash.
pub open spec fn is_plain_char(c: char) -> bool {
    32 <= c as u32 && c as u32 <= 126 && c != '"' && c != '\'' && c != '\\'
}

pub open spec fn all_plain(s: Seq<char>) -> bool {
    forall|i: int| 0 <= i < s.len() ==> is_plain_char(#[trigger] s[i])
}

/// `s` as `Ustr`'s `Debug` writes it when no character needs an escape:
/// `u!("` before and `")` after.
pub open spec fn quoted_debug(s: Seq<char>) -> Seq<char> {
    seq!['u', '!', '(', '"'] + s + seq!['"', ')']
}

/// Relies on `Ustr::from`: it looks `string` up in the global cache, inserts
/// it when absent, and returns the handle of the cached copy.
pub assume_specification[ Ustr::from ](string: &str) -> (r: Ustr)
    ensures
        ustr_text(r) == string@,
;

/// Relies on `Ustr::as_str`: the cached string of the handle.
pub assume_specification[ Ustr::as_str ](u: &Ustr) -> (r: &'static str)
    ensures
        r@ == ustr_text(*u),
;

/// Relies on `Ustr`'s `PartialEq`, a comparison of cache addresses: the cache
/// holds each distinct string once, so two handles are equal exactly when
/// their strings are.
pub assume_specification[ <Ustr as PartialEq>::eq ](a: &Ustr, b: &Ustr) -> (r: bool)
    ensures
        r == (ustr_text(*a) == ustr_text(*b)),
;

/// Relies on `Ustr`'s `Ord`, which compares the two strings as `str` does:
/// lexicographically by their UTF-8 bytes.
pub assume_specification[ <Ustr as Ord>::cmp ](a: &Ustr, b: &Ustr) -> (r: Ordering)
    ensures
        r == lex_cmp(encode_utf8(ustr_text(*a)), encode_utf8(ustr_text(*b))),
;

/// Relies on `Ustr`'s `Debug`, which writes `u!(`, the string as `str`'s
/// `Debug` writes it (in double quotes, with escapes), and `)`.
#[verifier::external_body]
pub(crate) fn ustr_debug(u: &Ustr) -> (r: String)
    ensures
        r@ == ustr_debug_text(ustr_text(*u)),
        all_plain(ustr_text(*u)) ==> r@ == quoted_debug(ustr_text(*u)),
{
    format!("{:?}", u)
}

} // verus!

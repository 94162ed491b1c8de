//! The identifier of a component: a validated name, interned once per process.

use core::cmp::Ordering;
use ustr::Ustr;
use vstd::prelude::*;
use vstd::std_specs::cmp::{PartialEqSpec, PartialOrdSpec};
use vstd::utf8::{encode_utf8, encode_utf8_decode_utf8};

use crate::correctness::{check_valid_string, first_violation, FAILED, valid_string, ValidationError};
use crate::interning::{all_plain, quoted_debug, ustr_debug, ustr_debug_text, ustr_text};
use crate::ordering::{lemma_lex_cmp_equal, lemma_lex_cmp_swap, lex_cmp};

verus! {

/// A valid component ID: a handle to a validated string in the process-wide
/// string cache. Equality and order are those of the strings.
#[derive(Clone, Copy, Hash, Eq, Ord)]
pub struct ComponentId(Ustr);

impl View for ComponentId {
    type V = Seq<char>;

    /// The name this identifier stands for.
    closed spec fn view(&self) -> Seq<char> {
        ustr_text(self.0)
    }
}

impl ComponentId {
    /// The wrapped handle always stands for a valid string.
    #[verifier::type_invariant]
    spec fn inv(self) -> bool {
        valid_string(ustr_text(self.0))
    }

    /// Creates a component ID from `value`, or says which rule `value` breaks.
    pub fn new_checked(value: &str) -> (r: Result<ComponentId, ValidationError>)
        ensures
            r is Ok <==> valid_string(value@),
            r matches Ok(id) ==> id@ == value@,
            r matches Err(e) ==> {
                &&& Some(e.kind) == first_violation(value@)
                &&& e.param@ == "value"@
                &&& e.value@ == value@
            },
    {
        match check_valid_string(value, "value") {
            Ok(()) => Ok(ComponentId(Ustr::from(value))),
            Err(e) => Err(e),
        }
    }

    /// Creates a component ID from a string known to be valid.
    pub fn new(value: &str) -> (r: ComponentId)
        requires
            valid_string(value@),
        ensures
            r@ == value@,
    {
        Self::new_checked(value).expect(FAILED)
    }

    /// Replaces the wrapped handle by the handle of `value`. The caller
    /// validates `value` first.
    pub(crate) fn set_inner(&mut self, value: &str)
        requires
            valid_string(value@),
        ensures
            final(self)@ == value@,
    {
        self.0 = Ustr::from(value);
    }

    /// The interned handle.
    pub fn inner(&self) -> (r: Ustr)
        ensures
            ustr_text(r) == self@,
    {
        self.0
    }

    /// The name, borrowed from the string cache. It is always a valid string.
    pub fn as_str(&self) -> (r: &str)
        ensures
            r@ == self@,
            valid_string(r@),
    {
        proof {
            use_type_invariant(self);
        }
        self.0.as_str()
    }

    /// The name as it is displayed: the string itself.
    pub fn to_string(&self) -> (r: String)
        ensures
            r@ == self@,
    {
        self.0.as_str().to_owned()
    }

    /// The name as `Debug` writes it: `u!("...")`, with `str`'s escapes.
    pub fn debug_string(&self) -> (r: String)
        ensures
            r@ == ustr_debug_text(self@),
            all_plain(self@) ==> r@ == quoted_debug(self@),
    {
        ustr_debug(&self.0)
    }
}

impl PartialEq for ComponentId {
    fn eq(&self, other: &ComponentId) -> bool {
        self.0 == other.0
    }
}

impl vstd::std_specs::cmp::PartialEqSpecImpl for ComponentId {
    open spec fn obeys_eq_spec() -> bool {
        true
    }

    open spec fn eq_spec(&self, other: &ComponentId) -> bool {
        self@ == other@
    }
}

impl PartialOrd for ComponentId {
    fn partial_cmp(&self, other: &ComponentId) -> Option<Ordering> {
        Some(self.0.cmp(&other.0))
    }
}

impl vstd::std_specs::cmp::PartialOrdSpecImpl for ComponentId {
    open spec fn obeys_partial_cmp_spec() -> bool {
        true
    }

    open spec fn partial_cmp_spec(&self, other: &ComponentId) -> Option<Ordering> {
        Some(lex_cmp(encode_utf8(self@), encode_utf8(other@)))
    }
}

/// Identifiers built from equal strings are equal and compare as equal,
/// whenever each was built and whatever was interned in between.
pub proof fn lemma_equal_names_equal_ids(a: ComponentId, b: ComponentId)
    requires
        a@ == b@,
    ensures
        a.eq_spec(&b),
        a.partial_cmp_spec(&b) == Some(Ordering::Equal),
{
    lemma_lex_cmp_equal(encode_utf8(a@), encode_utf8(b@));
}

/// Identifiers are ordered as their names are: lexicographically, by the
/// bytes of the names. They compare as equal exactly when their names are
/// equal, and swapping the operands reverses the order.
pub proof fn lemma_order_follows_names(a: ComponentId, b: ComponentId)
    ensures
        a.partial_cmp_spec(&b) == Some(lex_cmp(encode_utf8(a@), encode_utf8(b@))),
        (a.partial_cmp_spec(&b) == Some(Ordering::Equal)) <==> a@ == b@,
        (a.partial_cmp_spec(&b) == Some(Ordering::Less)) <==> (b.partial_cmp_spec(&a) == Some(
            Ordering::Greater,
        )),
{
    lemma_lex_cmp_equal(encode_utf8(a@), encode_utf8(b@));
    lemma_lex_cmp_swap(encode_utf8(a@), encode_utf8(b@));
    encode_utf8_decode_utf8(a@);
    encode_utf8_decode_utf8(b@);
}

/// The debug text of a name of plain characters is not the name itself, and
/// stripping its leading `u!("` and trailing `")` gives the name back.
pub proof fn lemma_debug_text_recoverable(s: Seq<char>)
    requires
        all_plain(s),
    ensures
        quoted_debug(s) != s,
        quoted_debug(s).subrange(4, quoted_debug(s).len() - 2) == s,
{
    assert(quoted_debug(s).len() == s.len() + 6);
    assert(quoted_debug(s).subrange(4, quoted_debug(s).len() - 2) =~= s);
}

} // verus!

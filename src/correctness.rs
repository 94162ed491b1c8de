//! The validation predicate shared by identifier types.

use vstd::prelude::*;
use vstd::string::is_ascii_spec_bytes;
use vstd::utf8::is_ascii_chars;

verus! {

/// The message of a failed check that the caller had ruled out.
pub const FAILED: &'static str = "Condition failed";

/// Which rule a rejected string broke.
#[derive(Clone, Copy, Debug, PartialEq, Eq, Structural)]
pub enum ValidationErrorKind {
    /// The string has no characters.
    Empty,
    /// The string holds a character outside ASCII.
    NonAscii,
    /// Every character of the string is whitespace.
    AllWhitespace,
}

/// A rejected string: the rule it broke, the name of the parameter it was
/// given for, and the string itself.
#[derive(Clone, Debug)]
pub struct ValidationError {
    pub kind: ValidationErrorKind,
    pub param: String,
    pub value: String,
}

/// The text that describes a rejection of `value`, given for `param`.
pub open spec fn error_message(kind: ValidationErrorKind, param: Seq<char>, value: Seq<char>) -> Seq<char> {
    match kind {
        ValidationErrorKind::Empty => "invalid string for '"@ + param + "', was empty"@,
        ValidationErrorKind::NonAscii => "invalid string for '"@ + param
            + "' contained a non-ASCII char, was '"@ + value + "'"@,
        ValidationErrorKind::AllWhitespace => "invalid string for '"@ + param
            + "', was all whitespace"@,
    }
}

impl ValidationError {
    /// A sentence that names the parameter and, for a non-ASCII string, the
    /// string.
    pub fn message(&self) -> (r: String)
        ensures
            r@ == error_message(self.kind, self.param@, self.value@),
    {
        let mut r = String::from_str("invalid string for '");
        r.append(self.param.as_str());
        match self.kind {
            ValidationErrorKind::Empty => {
                r.append("', was empty");
            },
            ValidationErrorKind::NonAscii => {
                r.append("' contained a non-ASCII char, was '");
                r.append(self.value.as_str());
                r.append("'");
            },
            ValidationErrorKind::AllWhitespace => {
                r.append("', was all whitespace");
            },
        }
        r
    }
}

/// Whitespace in the sense of `char::is_whitespace`, on ASCII characters:
/// space, and tab through carriage return.
pub open spec fn is_ascii_whitespace_char(c: char) -> bool {
    c as u32 == 32 || (9 <= c as u32 && c as u32 <= 13)
}

pub open spec fn all_whitespace(s: Seq<char>) -> bool {
    forall|i: int| 0 <= i < s.len() ==> is_ascii_whitespace_char(#[trigger] s[i])
}

/// The first rule that `s` breaks, checked in order: empty, non-ASCII, all
/// whitespace. `None` when `s` is valid.
pub open spec fn first_violation(s: Seq<char>) -> Option<ValidationErrorKind> {
    if s.len() == 0 {
        Some(ValidationErrorKind::Empty)
    } else if !is_ascii_chars(s) {
        Some(ValidationErrorKind::NonAscii)
    } else if all_whitespace(s) {
        Some(ValidationErrorKind::AllWhitespace)
    } else {
        None
    }
}

/// A valid identifier string: non-empty, ASCII, and not whitespace only.
pub open spec fn valid_string(s: Seq<char>) -> bool {
    first_violation(s) is None
}

fn is_whitespace_byte(b: u8) -> (r: bool)
    ensures
        r == (b == 32 || (9 <= b && b <= 13)),
{
    b == 32 || (9 <= b && b <= 13)
}

/// Checks `value`, given for the parameter named `param`, against the
/// validation rules.
pub fn check_valid_string(value: &str, param: &str) -> (r: Result<(), ValidationError>)
    ensures
        r is Ok <==> valid_string(value@),
        r matches Err(e) ==> {
            &&& Some(e.kind) == first_violation(value@)
            &&& e.param@ == param@
            &&& e.value@ == value@
        },
{
    if value.is_empty() {
        return Err(
            ValidationError {
                kind: ValidationErrorKind::Empty,
                param: param.to_owned(),
                value: value.to_owned(),
            },
        );
    }
    if !value.is_ascii() {
        return Err(
            ValidationError {
                kind: ValidationErrorKind::NonAscii,
                param: param.to_owned(),
                value: value.to_owned(),
            },
        );
    }
    let bytes = value.as_bytes();
    proof {
        is_ascii_spec_bytes(value);
    }
    assert(bytes@.len() == value@.len());
    let mut i: usize = 0;
    while i < bytes.len()
        invariant
            bytes@.len() == value@.len(),
            is_ascii_chars(value@),
            forall|j: int| 0 <= j < value@.len() ==> #[trigger] bytes@[j] == value@[j] as u8,
            forall|j: int| 0 <= j < i ==> is_ascii_whitespace_char(#[trigger] value@[j]),
        decreases bytes.len() - i,
    {
        if !is_whitespace_byte(bytes[i]) {
            assert(!is_ascii_whitespace_char(value@[i as int]));
            return Ok(());
        }
        i = i + 1;
    }
    Err(
        ValidationError {
            kind: ValidationErrorKind::AllWhitespace,
            param: param.to_owned(),
            value: value.to_owned(),
        },
    )
}

} // verus!

use vstd::prelude::*;

pub mod avalanche_json;
pub mod avalanche_request;
pub mod client;
pub mod codec;
pub mod codec_laws;
pub mod datetime;
pub mod enumerations;
pub mod laws;
pub mod text;

verus! {

/// A digit character's numeric value.
pub open spec fn digit_val(c: char) -> int {
    c as int - '0' as int
}

/// Whether a character is a decimal digit.
pub open spec fn is_digit(c: char) -> bool {
    '0' <= c && c <= '9'
}

/// Executable digit test, exact against the spec.
pub fn char_is_digit(c: char) -> (r: bool)
    ensures
        r == is_digit(c),
{
    '0' <= c && c <= '9'
}

} // verus!

//! Text helpers over the standard library: equality of string slices and
//! decimal parsing. The parsing results are named, not spelled out, so the
//! contracts that depend on them say exactly which parse they rest on.

use vstd::prelude::*;

verus! {

/// `core::num::ParseIntError`, the failure of a decimal parse: carried as it
/// is, and never looked into.
#[verifier::external_type_specification]
#[verifier::external_body]
pub struct ExParseIntError(core::num::ParseIntError);

/// What `str::parse::<u64>` makes of a text: the number it denotes, or nothing
/// where the standard library rejects the text.
pub uninterp spec fn decimal_u64(text: Seq<char>) -> Option<u64>;

/// What `str::parse::<i64>` makes of a text: the number it denotes, or nothing
/// where the standard library rejects the text.
pub uninterp spec fn decimal_i64(text: Seq<char>) -> Option<i64>;

/// `str::eq`: two string slices are equal exactly when they hold the same
/// characters.
#[verifier::external_body]
pub(crate) fn same_text(left: &str, right: &str) -> (same: bool)
    ensures
        same == (left@ == right@),
{
    left == right
}

/// `str::parse::<u64>`: succeeds with the value named by [`decimal_u64`], and
/// fails exactly where that name has no value.
#[verifier::external_body]
pub(crate) fn parse_u64(text: &str) -> (parsed: Result<u64, core::num::ParseIntError>)
    ensures
        match parsed {
            Ok(value) => decimal_u64(text@) == Some(value),
            Err(_) => decimal_u64(text@).is_none(),
        },
{
    text.parse::<u64>()
}

/// `str::parse::<i64>`: succeeds with the value named by [`decimal_i64`], and
/// fails exactly where that name has no value.
#[verifier::external_body]
pub(crate) fn parse_i64(text: &str) -> (parsed: Result<i64, core::num::ParseIntError>)
    ensures
        match parsed {
            Ok(value) => decimal_i64(text@) == Some(value),
            Err(_) => decimal_i64(text@).is_none(),
        },
{
    text.parse::<i64>()
}

/// The characters of an optional string.
pub open spec fn chars_of(text: Option<String>) -> Option<Seq<char>> {
    match text {
        Some(s) => Some(s@),
        None => None,
    }
}

} // verus!

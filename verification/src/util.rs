//! Identifier validation.

use vstd::prelude::*;

verus! {

/// Whether a string is a well-formed CUSIP under the format and checksum
/// rules that the `cusip` crate implements: nine ASCII characters whose last
/// is the check digit of the first eight.
pub uninterp spec fn cusip_valid(s: Seq<char>) -> bool;

/// Validate a CUSIP number.
///
/// Relies on `cusip::validate`: whether a string is a valid CUSIP, a pure
/// function of the characters alone.
#[verifier::external_body]
pub fn validate_cusip(cusip: &str) -> (r: bool)
    ensures
        r == cusip_valid(cusip@),
{
    cusip::validate(cusip)
}

} // verus!

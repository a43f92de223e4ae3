//! Decimal-valued arguments (commission rates), carried as `rust_decimal`
//! values. The decimal is opaque here: it is parsed once at the command line
//! and handed through to the transaction layer untouched.

use vstd::prelude::*;

use std::str::FromStr;

verus! {

/// Declares `rust_decimal::Decimal` to the verifier as an opaque value
/// type, so commands can carry one through.
#[verifier::external_type_specification]
#[verifier::external_body]
pub struct ExDecimal(rust_decimal::Decimal);

/// The decimal named by raw text, as `rust_decimal` reads it.
pub uninterp spec fn decimal_of(s: Seq<char>) -> Option<rust_decimal::Decimal>;

/// Relies on rust_decimal::Decimal::from_str: the result is a function of
/// the text alone, and empty text is rejected.
#[verifier::external_body]
pub(crate) fn parse_decimal(s: &str) -> (r: Option<rust_decimal::Decimal>)
    ensures
        r == decimal_of(s@),
        s@.len() == 0 ==> r is None,
{
    match rust_decimal::Decimal::from_str(s) {
        Ok(d) => Option::Some(d),
        Err(_) => Option::None,
    }
}

} // verus!

//! Types of other crates that values of this library carry unchanged.

use vstd::prelude::*;

verus! {

/// `rust_decimal::Decimal`, an exact decimal number. Nothing is claimed
/// about what a value holds; it is only moved and copied.
#[verifier::external_type_specification]
#[verifier::external_body]
pub struct ExDecimal(rust_decimal::Decimal);

/// `reqwest::Error`, the failure of an HTTP exchange. Nothing is claimed
/// about what a value holds; it is only moved.
#[verifier::external_type_specification]
#[verifier::external_body]
pub struct ExHttpError(reqwest::Error);

/// `serde_json::Error`, the failure to read a JSON payload. Nothing is
/// claimed about what a value holds; it is only moved.
#[verifier::external_type_specification]
#[verifier::external_body]
pub struct ExJsonError(serde_json::Error);

/// `Clone::clone` of `rust_decimal::Decimal`. The type is `Copy` and its
/// `Clone` is derived, so the clone is the same number in the same
/// representation.
pub assume_specification[ <rust_decimal::Decimal as Clone>::clone ](
    d: &rust_decimal::Decimal,
) -> (r: rust_decimal::Decimal)
    ensures
        r == *d,
;

} // verus!

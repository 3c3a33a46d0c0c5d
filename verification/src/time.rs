//! Timestamps from `chrono` that records carry through unchanged. Instants
//! are held as UTC `NaiveDateTime` values.
use vstd::prelude::*;
use chrono::NaiveDateTime;

verus! {

#[verifier::external_type_specification]
#[verifier::external_body]
pub struct ExNaiveDateTime(chrono::NaiveDateTime);

/// Calls `PartialEq::eq` of `chrono::NaiveDateTime`, which chrono derives
/// from its date and time fields. Trusted: the result is true exactly when
/// the two values are the same instant.
#[verifier::external_body]
pub(crate) fn same_instant(a: &NaiveDateTime, b: &NaiveDateTime) -> (r: bool)
    ensures
        r == (*a == *b),
{
    *a == *b
}

} // verus!

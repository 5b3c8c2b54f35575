//! Row ids and timestamps, which come from the uuid and chrono crates.

use vstd::prelude::*;

verus! {

#[verifier::external_type_specification]
#[verifier::external_body]
pub struct ExUuid(uuid::Uuid);

#[verifier::external_type_specification]
#[verifier::external_body]
pub struct ExNaiveDateTime(chrono::NaiveDateTime);

/// Calls `uuid::Uuid::new_v4`, which draws a random (version 4) id. The id
/// depends on chance, so nothing is promised of it.
#[verifier::external_body]
pub(crate) fn new_row_id() -> (id: uuid::Uuid) {
    uuid::Uuid::new_v4()
}

/// Calls `chrono::Utc::now` and takes its naive UTC form. The value is the
/// machine's clock, so nothing is promised of it.
#[verifier::external_body]
pub(crate) fn utc_now() -> (t: chrono::NaiveDateTime) {
    chrono::Utc::now().naive_utc()
}

} // verus!

//! Values of other crates that the library carries without looking inside.

use vstd::prelude::*;

verus! {

/// `uuid::Uuid`, carried as an opaque value.
#[verifier::external_type_specification]
#[verifier::external_body]
pub struct ExUuid(uuid::Uuid);

/// `serde_json::Value`, carried as an opaque value.
#[verifier::external_type_specification]
#[verifier::external_body]
pub struct ExJsonValue(serde_json::Value);

/// `rust_decimal::Decimal`, carried as an opaque value.
#[verifier::external_type_specification]
#[verifier::external_body]
pub struct ExDecimal(rust_decimal::Decimal);

/// Trusted: `Decimal`'s derived `Clone` (the type is `Copy`); the contract
/// claims the copy equals the value copied.
pub assume_specification[ <rust_decimal::Decimal as Clone>::clone ](d: &rust_decimal::Decimal) -> (r: rust_decimal::Decimal)
    ensures
        r == *d,
;

/// Trusted: `Uuid`'s derived `Clone`, which copies the 16 bytes; the
/// contract claims the copy equals the value copied.
pub assume_specification[ <uuid::Uuid as Clone>::clone ](u: &uuid::Uuid) -> (r: uuid::Uuid)
    ensures
        r == *u,
;

/// Trusted: `serde_json::Value`'s derived `Clone`, a deep copy; the
/// contract claims the copy equals the value copied.
pub assume_specification[ <serde_json::Value as Clone>::clone ](v: &serde_json::Value) -> (r: serde_json::Value)
    ensures
        r == *v,
;

/// A fresh random identifier.
///
/// Trusted: calls `uuid::Uuid::new_v4`. Nothing is claimed of the result,
/// which is random.
#[verifier::external_body]
pub(crate) fn new_uuid() -> uuid::Uuid {
    uuid::Uuid::new_v4()
}

} // verus!

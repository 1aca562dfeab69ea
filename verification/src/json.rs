//! JSON values that the service sends and that this crate hands on
//! unread.

use vstd::prelude::*;

verus! {

/// `serde_json::Value`, a JSON value. Nothing in this crate looks inside
/// one.
#[verifier::external_type_specification]
#[verifier::external_body]
pub struct ExJsonValue(serde_json::Value);

/// `Clone::clone` of `serde_json::Value`, which the crate derives: the copy
/// is the same JSON value.
pub assume_specification[ <serde_json::Value as Clone>::clone ](value: &serde_json::Value) -> (copy:
    serde_json::Value)
    ensures
        copy == *value,
;

} // verus!

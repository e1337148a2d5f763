//! The JSON value type of `serde_json`, which some messages carry as they are.

use vstd::prelude::*;

verus! {

/// `serde_json::Value`, an arbitrary JSON document. The library carries such
/// values through unread: Verus sees nothing inside one.
#[verifier::external_type_specification]
#[verifier::external_body]
pub struct ExJsonValue(serde_json::Value);

/// `Clone::clone` of `serde_json::Value`, which the crate derives: the copy is
/// the same JSON document as the original.
pub assume_specification[ <serde_json::Value as Clone>::clone ](value: &serde_json::Value) -> (copy: serde_json::Value)
    ensures
        copy == *value,
;

} // verus!

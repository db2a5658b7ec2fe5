//! The free-form metadata that a model record carries.
//!
//! The metadata is a JSON object of `serde_json`. Nothing here looks inside
//! it: a record holds it, copies it and hands it on.

use vstd::prelude::*;

verus! {

/// `serde_json::Value`, known to the verifier as a type and no more.
#[verifier::external_type_specification]
#[verifier::external_body]
pub struct ExJsonValue(serde_json::Value);

/// `serde_json::Map`, known to the verifier as a type and no more.
#[verifier::external_type_specification]
#[verifier::external_body]
#[verifier::reject_recursive_types(K)]
#[verifier::reject_recursive_types(V)]
pub struct ExJsonObject<K, V>(serde_json::Map<K, V>);

/// `Clone::clone` of `serde_json::Map<String, Value>`: assumed to return an
/// object equal to the one it was given.
pub assume_specification[ <serde_json::Map<String, serde_json::Value> as Clone>::clone ](
    object: &serde_json::Map<String, serde_json::Value>,
) -> (copy: serde_json::Map<String, serde_json::Value>)
    ensures
        copy == *object,
;

} // verus!

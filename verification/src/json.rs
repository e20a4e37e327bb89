//! JSON values, which operations carry without looking inside.

use vstd::prelude::*;

verus! {

/// Makes `serde_json::Value` known to Verus, as an opaque type.
#[verifier::external_type_specification]
#[verifier::external_body]
pub struct ExValue(serde_json::Value);

/// `<serde_json::Value as Clone>::clone`, which `serde_json` derives: the copy is the same JSON
/// value.
pub assume_specification[ <serde_json::Value as Clone>::clone ](value: &serde_json::Value) -> (copy:
    serde_json::Value)
    ensures
        copy == *value,
;

} // verus!

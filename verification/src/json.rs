//! JSON values that the library carries without looking inside them.

use vstd::prelude::*;

verus! {

/// A JSON document as `serde_json` holds it; the library only moves such values around.
#[verifier::external_type_specification]
#[verifier::external_body]
pub struct ExJsonValue(serde_json::Value);

} // verus!

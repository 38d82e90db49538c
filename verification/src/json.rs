//! The JSON value that a sampling request carries as metadata.

use vstd::prelude::*;

verus! {

/// `serde_json::Value`, declared as an opaque type: the library carries a
/// value of it from a request to wherever the request goes and never looks
/// inside.
#[verifier::external_type_specification]
#[verifier::external_body]
pub struct ExJsonValue(serde_json::Value);

} // verus!

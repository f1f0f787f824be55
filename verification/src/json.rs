use vstd::prelude::*;

verus! {

/// Relies on serde_json: `Value` is an arbitrary JSON document. The records
/// here only carry such values through unread — capability hints and
/// metadata are written and interpreted by outside collaborators — so the
/// type is declared opaque and nothing is assumed of what it holds.
#[verifier::external_type_specification]
#[verifier::external_body]
pub struct ExValue(serde_json::Value);

} // verus!

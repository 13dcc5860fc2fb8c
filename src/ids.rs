use vstd::prelude::*;

verus! {

/// Relies on `uuid::Uuid::new_v4` and `Uuid::as_u128`: a randomly drawn
/// version-4 UUID, handed on as its 128-bit value. Nothing is promised of the
/// value, so two calls may return anything, equal values included.
#[verifier::external_body]
pub(crate) fn fresh_id() -> (r: u128) {
    uuid::Uuid::new_v4().as_u128()
}

} // verus!

//! Fresh identifiers for workers and for requests.

use uuid::Uuid;
use vstd::prelude::*;

verus! {

/// `uuid::Uuid::new_v4`: a random identifier for a worker, as the 128-bit
/// number it stands for. Nothing is claimed of its value.
#[verifier::external_body]
pub(crate) fn fresh_worker_id() -> (id: u128) {
    Uuid::new_v4().as_u128()
}

/// `uuid::Uuid::new_v4`: a random identifier for a request, in its textual
/// form. Nothing is claimed of its value.
#[verifier::external_body]
pub(crate) fn fresh_request_id() -> (id: String) {
    Uuid::new_v4().to_string()
}

} // verus!

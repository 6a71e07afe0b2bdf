//! Shape of the support-contact endpoint.

use vstd::prelude::*;

verus! {

/// The confirmation of a message to support.
#[derive(Debug)]
pub struct CreateSupportContactResponse {
    pub id: String,
    pub message: String,
}

} // verus!

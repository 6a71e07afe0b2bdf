//! Shapes of the push-token endpoints.

use vstd::prelude::*;

verus! {

/// A device token to be registered.
#[derive(Debug)]
pub struct UpsertPushTokenRequest {
    pub token: String,
    pub platform: Option<String>,
}

/// A device token to be removed.
#[derive(Debug)]
pub struct DeletePushTokenRequest {
    pub token: String,
}

/// The confirmation of a change to the device tokens.
#[derive(Debug)]
pub struct PushTokenResponse {
    pub ok: bool,
}

} // verus!

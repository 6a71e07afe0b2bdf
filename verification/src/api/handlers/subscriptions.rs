//! Shapes of the subscription, link and block endpoints.

use vstd::prelude::*;

verus! {

/// A purchase made in a store, to be verified.
#[derive(Debug)]
pub struct VerifyPurchaseRequest {
    pub platform: String,        // 'android' or 'ios'
    pub product_id: String,       // e.g., 'gachitore_basic_monthly'
    pub purchase_token: String,   // Google Play purchase token
    pub order_id: Option<String>, // Google Play order ID
}

/// The links that a user wants to show.
#[derive(Debug)]
pub struct UpdateSnsLinksRequest {
    pub sns_links: Vec<SnsLink>,
}

/// A link to a profile elsewhere.
#[derive(Debug, Clone)]
pub struct SnsLink {
    pub link_type: String, // 'twitter', 'instagram', 'youtube', etc.
    pub url: String,
}

/// The links that a user shows.
#[derive(Debug)]
pub struct SnsLinksResponse {
    pub sns_links: Vec<SnsLink>,
}

/// The user to be blocked.
#[derive(Debug)]
pub struct BlockUserRequest {
    pub blocked_user_id: String,
}

/// The users that a user has blocked.
#[derive(Debug)]
pub struct BlockedUsersResponse {
    pub blocked_users: Vec<String>,
}

} // verus!

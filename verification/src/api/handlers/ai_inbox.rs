//! Shape of the AI inbox endpoint.

use vstd::prelude::*;

verus! {

/// A message that the coach left for the user.
#[derive(Debug)]
pub struct AiInboxMessage {
    pub id: String,
    pub content: String,
    pub kind: String,
    pub meal_type: String,
    pub date: String,
    pub created_at: String,
}

} // verus!

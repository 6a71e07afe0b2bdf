//! Messages exchanged with the generative model.

use vstd::prelude::*;
use vstd::string::*;

verus! {

/// One turn of a conversation with the model.
#[derive(Debug)]
pub struct ChatMessage {
    pub role: String,
    pub content: String,
}

impl ChatMessage {
    /// A turn spoken by the user.
    pub fn user(content: &str) -> (m: ChatMessage)
        ensures
            m.role@ == "user"@,
            m.content@ == content@,
    {
        ChatMessage { role: "user".to_owned(), content: content.to_owned() }
    }

    /// A turn spoken by the model.
    pub fn model(content: &str) -> (m: ChatMessage)
        ensures
            m.role@ == "model"@,
            m.content@ == content@,
    {
        ChatMessage { role: "model".to_owned(), content: content.to_owned() }
    }
}

} // verus!

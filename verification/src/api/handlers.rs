//! The data that each group of endpoints takes and gives.

pub mod ai;
pub mod ai_inbox;
pub mod auth;
pub mod dashboard;
pub mod meals;
pub mod photos;
pub mod posts;
pub mod push_tokens;
pub mod subscriptions;
pub mod support;
pub mod users;
pub mod workouts;

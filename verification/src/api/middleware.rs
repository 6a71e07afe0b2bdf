//! What runs in front of every protected route.

pub mod auth;

pub use auth::{auth_middleware, AuthUser, OptionalAuthUser};

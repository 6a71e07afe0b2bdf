//! The request-facing side: authentication and the rules applied to requests.

pub mod handlers;
pub mod middleware;
pub mod subscription_check;
pub mod validation;

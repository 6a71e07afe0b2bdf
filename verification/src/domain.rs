//! The domain's own calculations.

pub mod services;

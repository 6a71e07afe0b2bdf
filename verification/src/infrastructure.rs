//! The services behind the application.

pub mod gemini;
pub mod supabase;

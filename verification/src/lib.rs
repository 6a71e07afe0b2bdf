//! The Gachitore API as a library: the bearer-token gateway that stands in
//! front of every protected route, and the rules and data shapes of the
//! endpoints behind it.
//!
//! The gateway (`api::middleware::auth`) authenticates a call against an
//! identity provider that issues JSON Web Tokens signed with rotating keys.
//! It reads the token header, takes the key from the shared secret or from
//! a time-boxed cache of the published key set, verifies signature and
//! claims, and builds the caller's identity. It never waits for the network
//! itself: where the key set is needed it says so, and the server fetches.
//!
//! Every function is verified against its contract. What is taken from
//! other crates (signature verification, JSON, UUIDs, dates, patterns) and
//! from the few parts of the standard library that have no specification
//! stands behind small trusted wrappers: each says in its comment what it
//! calls and what its contract claims of the call.

pub mod api;
pub mod config;
pub mod domain;
pub mod error;
pub mod infrastructure;
pub mod state;
pub mod text;

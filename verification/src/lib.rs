//! Authentication core of a small user-profile service: validated user
//! values, the profile store and its upsert, the OAuth sign-in flow, and the
//! session token with the guard that asks every request for it.

pub mod domain;
pub mod infrastructure;
pub mod json;
pub mod middleware;
pub mod repositories;
pub mod text;

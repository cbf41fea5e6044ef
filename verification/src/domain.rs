//! The domain: users, and how they sign in.

pub mod auth;
pub mod career;
pub mod user;

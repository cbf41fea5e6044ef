//! Signing in through an identity provider.

pub mod authorization;
pub mod entity;
pub mod exchange;
pub mod fetch_access_token;
pub mod payload;
pub mod provider;
pub mod reconcile;
pub mod session;

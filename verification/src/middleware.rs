//! What stands between a request and its handler.

pub mod auth_middleware;

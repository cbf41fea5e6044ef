//! How the service is set up.

pub mod server;

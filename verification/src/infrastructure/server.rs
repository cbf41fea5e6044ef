//! The server of the service: where it listens.

use vstd::prelude::*;

verus! {

/// The host on which the service listens.
pub const HOST: &'static str = "127.0.0.1";

/// The server of the service.
#[derive(Debug, Clone, Copy, PartialEq, Eq, Structural)]
pub struct Server {
    port: u16,
}

impl Server {
    /// The port on which the server listens, as plain values.
    pub closed spec fn listens_on(self) -> u16 {
        self.port
    }

    /// The server that listens on `port`.
    pub fn new(port: u16) -> (server: Self)
        ensures
            server.listens_on() == port,
    {
        Self { port }
    }

    /// The port on which the server listens.
    pub fn port(&self) -> (port: u16)
        ensures
            port == self.listens_on(),
    {
        self.port
    }
}

} // verus!

use crate::error::{ConfigError, MandalaError, MandalaResult};
use vstd::prelude::*;

verus! {

/// A socket address as plain values: an IPv4 or IPv6 address and a port.
#[derive(Debug, Clone, Copy, PartialEq, Eq)]
pub enum ServerAddr {
    V4 { octets: [u8; 4], port: u16 },
    V6 { segments: [u16; 8], port: u16 },
}

/// The configuration of a client.
#[derive(Debug, Clone, Copy)]
pub struct ClientConfig {
    pub addr: ServerAddr,
}

/// Collects a client configuration; the server address is required.
#[derive(Debug, Clone, Copy)]
pub struct ClientConfigBuilder {
    addr: Option<ServerAddr>,
}

impl View for ClientConfigBuilder {
    type V = Option<ServerAddr>;

    closed spec fn view(&self) -> Option<ServerAddr> {
        self.addr
    }
}

impl Default for ClientConfigBuilder {
    fn default() -> (r: ClientConfigBuilder)
        ensures
            r@ is None,
    {
        ClientConfigBuilder { addr: None }
    }
}

impl ClientConfigBuilder {
    /// A builder with no address set.
    pub fn new() -> (r: ClientConfigBuilder)
        ensures
            r@ is None,
    {
        ClientConfigBuilder { addr: None }
    }

    /// Sets the server address, replacing any earlier one.
    pub fn server_addr(&mut self, addr: ServerAddr) -> (r: &mut ClientConfigBuilder)
        ensures
            (*r)@ == Some(addr),
            *final(self) == *final(r),
    {
        self.addr = Some(addr);
        self
    }

    /// The configuration, or `MissingServerAddr` when no address was set.
    pub fn build(&self) -> (r: MandalaResult<ClientConfig>)
        ensures
            self@ is None ==> r == Err::<ClientConfig, MandalaError>(
                MandalaError::ConfigError(ConfigError::MissingServerAddr),
            ),
            self@ is Some ==> r is Ok && r->Ok_0.addr == self@->Some_0,
    {
        match self.addr {
            Some(addr) => Ok(ClientConfig { addr }),
            None => Err(MandalaError::ConfigError(ConfigError::MissingServerAddr)),
        }
    }
}

/// The configuration of a server.
#[derive(Debug, Clone, Copy)]
pub struct ServerConfig {
    pub addr: ServerAddr,
}

/// Collects a server configuration; the address to bind is required.
#[derive(Debug, Clone, Copy)]
pub struct ServerConfigBuilder {
    addr: Option<ServerAddr>,
}

impl View for ServerConfigBuilder {
    type V = Option<ServerAddr>;

    closed spec fn view(&self) -> Option<ServerAddr> {
        self.addr
    }
}

impl ServerConfigBuilder {
    /// A builder with no address set.
    pub fn new() -> (r: ServerConfigBuilder)
        ensures
            r@ is None,
    {
        ServerConfigBuilder { addr: None }
    }

    /// Sets the address to bind, replacing any earlier one.
    pub fn server_addr(&mut self, addr: ServerAddr) -> (r: &mut ServerConfigBuilder)
        ensures
            (*r)@ == Some(addr),
            *final(self) == *final(r),
    {
        self.addr = Some(addr);
        self
    }

    /// The configuration, or `MissingServerAddr` when no address was set.
    pub fn build(&mut self) -> (r: MandalaResult<ServerConfig>)
        ensures
            final(self)@ == old(self)@,
            old(self)@ is None ==> r == Err::<ServerConfig, MandalaError>(
                MandalaError::ConfigError(ConfigError::MissingServerAddr),
            ),
            old(self)@ is Some ==> r is Ok && r->Ok_0.addr == old(self)@->Some_0,
    {
        match self.addr {
            Some(addr) => Ok(ServerConfig { addr }),
            None => Err(MandalaError::ConfigError(ConfigError::MissingServerAddr)),
        }
    }
}

} // verus!

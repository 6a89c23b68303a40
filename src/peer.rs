use crate::config::{ClientConfig, ServerConfig};
use vstd::prelude::*;

verus! {

/// A client and the configuration it runs with.
#[derive(Debug, Clone, Copy)]
pub struct MandalaClient {
    config: ClientConfig,
}

impl MandalaClient {
    pub fn new(config: ClientConfig) -> (r: MandalaClient)
        ensures
            r.config_spec() == config,
    {
        MandalaClient { config }
    }

    pub closed spec fn config_spec(&self) -> ClientConfig {
        self.config
    }
}

/// A server and the configuration it runs with.
#[derive(Debug, Clone, Copy)]
pub struct MandalaServer {
    config: ServerConfig,
}

impl MandalaServer {
    pub fn new(config: ServerConfig) -> (r: MandalaServer)
        ensures
            r.config_spec() == config,
    {
        MandalaServer { config }
    }

    pub closed spec fn config_spec(&self) -> ServerConfig {
        self.config
    }

    /// The configuration the server was made with.
    pub fn config(&self) -> (r: ServerConfig)
        ensures
            r == self.config_spec(),
    {
        self.config
    }
}

/// The next phase of the client's colour cycle, which runs over `0..255`.
pub fn next_phase(i: u8) -> (r: u8)
    ensures
        r == (i as int + 1) % 255,
{
    ((i as u16 + 1) % 255) as u8
}

/// The clear colour of a phase, as red, green and blue.
pub fn phase_color(i: u8) -> (r: (u8, u8, u8))
    ensures
        r == (i, 64u8, (255 - i) as u8),
{
    (i, 64, 255 - i)
}

} // verus!

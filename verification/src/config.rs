//! Listen configuration: address, port and the shared token.
//!
//! Loading these from the process environment is the embedding
//! application's job; this module only fixes the defaults and holds the
//! values the rest of the library reads.

use vstd::prelude::*;

verus! {

/// The port the relay listens on when none is configured.
pub const DEFAULT_PORT: u16 = 3030;

/// Process configuration: where to listen and the shared secret that the
/// auth gates compare credentials against.
pub struct Config {
    /// IPv4 listen address, as its four octets.
    pub address: [u8; 4],
    /// Listen port.
    pub port: u16,
    /// The pre-shared token both auth gates derive their expected
    /// credentials from.
    pub token: String,
}

/// Default listen port.
pub fn default_port() -> (port: u16)
    ensures
        port == 3030,
{
    DEFAULT_PORT
}

/// Default listen address: every interface.
pub fn default_address() -> (address: [u8; 4])
    ensures
        address@ =~= seq![0u8, 0u8, 0u8, 0u8],
{
    [0u8, 0u8, 0u8, 0u8]
}

impl Config {
    /// A configuration with the default address and port and the given
    /// token.
    pub fn new(token: String) -> (config: Config)
        ensures
            config.address@ =~= seq![0u8, 0u8, 0u8, 0u8],
            config.port == 3030,
            config.token == token,
    {
        Config { address: default_address(), port: default_port(), token }
    }
}

} // verus!

//! Where the server listens.

use vstd::prelude::*;

verus! {

/// The address to bind when nothing else is asked for.
pub const DEFAULT_BIND_ADDRESS: &'static str = "127.0.0.1";

/// The port to bind when nothing else is asked for.
pub const DEFAULT_PORT: u16 = 8080;

/// The startup configuration of the server.
#[derive(Debug, PartialEq, Eq)]
pub struct Config {
    pub bind_address: String,
    pub port: u16,
}

impl Default for Config {
    /// The configuration of a server started without options.
    fn default() -> (config: Self)
        ensures
            config.bind_address@ == DEFAULT_BIND_ADDRESS@,
            config.port == DEFAULT_PORT,
    {
        Config { bind_address: DEFAULT_BIND_ADDRESS.to_owned(), port: DEFAULT_PORT }
    }
}

} // verus!

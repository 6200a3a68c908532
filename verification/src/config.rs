//! Application configuration consumed by the callers of the pipeline.

use vstd::prelude::*;

verus! {

/// Settings the calling process hands to the authentication pipeline.
pub struct Config {
    /// Whether the credential cache on disk may be consulted and written.
    pub cache_enabled: bool,
    /// The address of the game server to query after authentication.
    pub server_url: String,
}

impl Default for Config {
    /// Caching is on by default and the server is the local default address.
    fn default() -> (c: Config)
        ensures
            c.cache_enabled,
            c.server_url@ == "localhost:25565"@,
    {
        Config { cache_enabled: true, server_url: String::from_str("localhost:25565") }
    }
}

} // verus!

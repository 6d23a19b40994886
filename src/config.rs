use vstd::prelude::*;

verus! {

/// Where the server listens and how many workers serve requests.
pub struct ServerConfig {
    pub host: String,
    pub port: u16,
    pub workers: usize,
}

impl ServerConfig {
    /// The defaults: loopback address, port 8080, four workers.
    pub fn new() -> (r: ServerConfig)
        ensures
            r.host@ == "127.0.0.1"@,
            r.port == 8080,
            r.workers == 4,
    {
        ServerConfig { host: String::from_str("127.0.0.1"), port: 8080, workers: 4 }
    }
}

impl Default for ServerConfig {
    fn default() -> (r: ServerConfig)
        ensures
            r.host@ == "127.0.0.1"@,
            r.port == 8080,
            r.workers == 4,
    {
        ServerConfig::new()
    }
}

} // verus!

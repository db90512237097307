//! The local HTTP server's settings.
use vstd::prelude::*;

verus! {

/// Where the local HTTP server listens.
pub struct HttpServerConfig {
    pub addr: String,
    pub port: u16,
}

/// The local server listens on every address, port 3030.
pub fn get_default_server_config() -> (r: HttpServerConfig)
    ensures
        r.addr@ == "0.0.0.0"@,
        r.port == 3030,
{
    HttpServerConfig { addr: String::from_str("0.0.0.0"), port: 3030 }
}

} // verus!

//! Where the relay listens and where it forwards to.
use vstd::prelude::*;

verus! {

/// The two addresses of a relay, each written "host:port".  Built once and
/// only read afterwards.
pub struct Config {
    pub upstream_addr: String,
    pub listen_addr: String,
}

impl Config {
    pub fn new(listen_addr: String, upstream_addr: String) -> (r: Config)
        ensures
            r.listen_addr == listen_addr,
            r.upstream_addr == upstream_addr,
    {
        Config { upstream_addr, listen_addr }
    }
}

/// The relay's standard setup: listen on every interface at port 8081 and
/// forward to port 8080.
pub fn resolve_config() -> (r: Config)
    ensures
        r.upstream_addr@ == "0.0.0.0:8080"@,
        r.listen_addr@ == "0.0.0.0:8081"@,
{
    Config { upstream_addr: "0.0.0.0:8080".to_string(), listen_addr: "0.0.0.0:8081".to_string() }
}

} // verus!

//! Service settings, as read from the environment at startup.

use vstd::prelude::*;

verus! {

/// Where the backends are, where to listen, and the base of short URLs.
#[derive(Clone, Debug, PartialEq, Eq)]
pub struct Config {
    pub database_url: String,
    pub redis_url: String,
    pub server_host: String,
    pub server_port: u16,
    pub base_url: String,
}

} // verus!

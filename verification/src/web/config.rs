//! Settings of the web server.

use vstd::prelude::*;

verus! {

/// The port that the web server listens on where none is configured.
pub fn default_port() -> (port: u16)
    ensures
        port == 8080,
{
    8080
}

/// How many updates the bus holds for a subscriber that is slow to read;
/// older ones are lost to it.
pub const UPDATE_BUS_CAPACITY: usize = 10;

/// How often, in seconds, an idle stream is sent a keep-alive record.
pub const STREAM_KEEP_ALIVE_SECS: u64 = 600;

/// How far back, in seconds, a drone must have been stored to count as
/// active.
pub const ACTIVE_WINDOW_SECS: u64 = 600;

/// Settings of the web server.
#[derive(Debug)]
pub struct WebConfig {
    pub port: u16,
    pub host: String,
}

impl Default for WebConfig {
    fn default() -> (r: WebConfig)
        ensures
            r.port == 8080,
            r.host@ == Seq::<char>::empty(),
    {
        WebConfig { port: default_port(), host: String::new() }
    }
}

impl Clone for WebConfig {
    fn clone(&self) -> (r: Self)
        ensures
            r.port == self.port,
            r.host@ == self.host@,
    {
        WebConfig { port: self.port, host: self.host.clone() }
    }
}

} // verus!

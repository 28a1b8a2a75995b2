//! Settings read once at process start: the listening port and the log level.
use vstd::prelude::*;

verus! {

/// The port listened on when none is given.
pub const DEFAULT_PORT: u16 = 8080;

/// The log level used when none is given.
pub open spec fn default_log_level() -> Seq<char> {
    seq!['i', 'n', 'f', 'o']
}

/// Settings of the server.
#[derive(Debug, Clone)]
pub struct Config {
    pub port: u16,
    pub log_level: String,
}

impl Config {
    /// Settings from the values given, with port 8080 and log level `info`
    /// where a value is missing.
    pub fn with_defaults(port: Option<u16>, log_level: Option<String>) -> (r: Config)
        ensures
            r.port == (match port {
                Some(p) => p,
                None => DEFAULT_PORT,
            }),
            r.log_level@ == (match log_level {
                Some(l) => l@,
                None => default_log_level(),
            }),
    {
        let port = match port {
            Some(p) => p,
            None => DEFAULT_PORT,
        };
        let log_level = match log_level {
            Some(l) => l,
            None => {
                let l = "info".to_owned();
                proof {
                    reveal_strlit("info");
                }
                l
            },
        };
        Config { port, log_level }
    }
}

} // verus!

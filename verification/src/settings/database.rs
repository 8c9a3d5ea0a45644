//! How the bot connects to its Postgres database.

use vstd::prelude::*;

verus! {

/// Seconds to wait for a connection unless the settings say otherwise.
pub const DEFAULT_CONNECT_TIMEOUT_SECS: u64 = 15u64;
/// Seconds a connection may sit idle unless the settings say otherwise.
pub const DEFAULT_IDLE_TIMEOUT_SECS: u64 = 600u64;
/// Connections kept at most unless the settings say otherwise.
pub const DEFAULT_MAX_CONNECTIONS: u32 = 10u32;
/// Connections kept at least unless the settings say otherwise.
pub const DEFAULT_MIN_CONNECTIONS: u32 = 0u32;

/// The database's address and the limits of its connection pool.
///
/// Timeouts are whole seconds.
#[derive(Debug)]
pub struct Database {
    connect_timeout_secs: u64,
    idle_timeout_secs: u64,
    max_connections: u32,
    min_connections: u32,
    url: String,
}

impl Database {
    pub closed spec fn spec_connect_timeout_secs(&self) -> u64 {
        self.connect_timeout_secs
    }

    pub closed spec fn spec_idle_timeout_secs(&self) -> u64 {
        self.idle_timeout_secs
    }

    pub closed spec fn spec_max_connections(&self) -> u32 {
        self.max_connections
    }

    pub closed spec fn spec_min_connections(&self) -> u32 {
        self.min_connections
    }

    pub closed spec fn spec_url(&self) -> Seq<char> {
        self.url@
    }

    /// Settings for `url`, each limit given or else its default.
    pub fn new(
        url: String,
        connect_timeout_secs: Option<u64>,
        idle_timeout_secs: Option<u64>,
        max_connections: Option<u32>,
        min_connections: Option<u32>,
    ) -> (d: Database)
        ensures
            d.spec_url() == url@,
            d.spec_connect_timeout_secs() == (match connect_timeout_secs {
                Some(s) => s,
                None => DEFAULT_CONNECT_TIMEOUT_SECS,
            }),
            d.spec_idle_timeout_secs() == (match idle_timeout_secs {
                Some(s) => s,
                None => DEFAULT_IDLE_TIMEOUT_SECS,
            }),
            d.spec_max_connections() == (match max_connections {
                Some(n) => n,
                None => DEFAULT_MAX_CONNECTIONS,
            }),
            d.spec_min_connections() == (match min_connections {
                Some(n) => n,
                None => DEFAULT_MIN_CONNECTIONS,
            }),
    {
        Database {
            connect_timeout_secs: match connect_timeout_secs {
                Some(s) => s,
                None => DEFAULT_CONNECT_TIMEOUT_SECS,
            },
            idle_timeout_secs: match idle_timeout_secs {
                Some(s) => s,
                None => DEFAULT_IDLE_TIMEOUT_SECS,
            },
            max_connections: match max_connections {
                Some(n) => n,
                None => DEFAULT_MAX_CONNECTIONS,
            },
            min_connections: match min_connections {
                Some(n) => n,
                None => DEFAULT_MIN_CONNECTIONS,
            },
            url,
        }
    }

    /// Seconds to wait for a connection.
    pub fn connect_timeout(&self) -> (r: u64)
        ensures
            r == self.spec_connect_timeout_secs(),
    {
        self.connect_timeout_secs
    }

    /// Seconds a connection may sit idle.
    pub fn idle_timeout(&self) -> (r: u64)
        ensures
            r == self.spec_idle_timeout_secs(),
    {
        self.idle_timeout_secs
    }

    /// Connections kept at most.
    pub fn max_connections(&self) -> (r: u32)
        ensures
            r == self.spec_max_connections(),
    {
        self.max_connections
    }

    /// Connections kept at least.
    pub fn min_connections(&self) -> (r: u32)
        ensures
            r == self.spec_min_connections(),
    {
        self.min_connections
    }

    /// The address of the database, from which connect options are parsed.
    pub fn url(&self) -> (r: &str)
        ensures
            r@ == self.spec_url(),
    {
        self.url.as_str()
    }
}

} // verus!

//! How the bot talks to Discord: its HTTP client, its home guild, its
//! presence, its shards and its token.

use vstd::prelude::*;
use crate::nonzero::NonZeroU64;
use crate::settings::sharding::Sharding;

verus! {

/// `twilight_model`'s presence payload, carried as an opaque value.
#[verifier::external_type_specification]
#[verifier::external_body]
pub struct ExUpdatePresencePayload(twilight_model::gateway::payload::outgoing::update_presence::UpdatePresencePayload);

/// Seconds an HTTP request may take unless the settings say otherwise.
pub const DEFAULT_HTTP_TIMEOUT_SECS: u64 = 10u64;

/// How requests to Discord's HTTP API are made.
#[derive(Clone, Debug)]
pub struct Http {
    /// A proxy server for every request, if any.
    pub proxy: Option<String>,
    /// Whether the proxy is reached over plain HTTP.
    pub proxy_use_http: bool,
    /// Seconds a request may take.
    pub timeout_secs: u64,
    /// Whether answers are cached to spare requests.
    pub use_cache: bool,
}

impl Default for Http {
    /// No proxy (reached over HTTP if one is set later), ten seconds a
    /// request, no cache.
    fn default() -> (h: Http)
        ensures
            h.proxy is None,
            h.proxy_use_http,
            h.timeout_secs == DEFAULT_HTTP_TIMEOUT_SECS,
            !h.use_cache,
    {
        Http { proxy: None, proxy_use_http: true, timeout_secs: DEFAULT_HTTP_TIMEOUT_SECS, use_cache: false }
    }
}

/// The guild where payments and administration take place, and the channel
/// where admins are alerted.
#[derive(Clone, Copy, Debug)]
pub struct LocalGuild {
    pub id: NonZeroU64,
    pub alert_channel_id: NonZeroU64,
}

/// The bot's connection to Discord.
#[derive(Debug)]
pub struct Bot {
    pub http: Http,
    pub local_guild: LocalGuild,
    /// The presence shown at start, if any.
    pub presence: Option<twilight_model::gateway::payload::outgoing::update_presence::UpdatePresencePayload>,
    pub sharding: Sharding,
    /// The token the bot logs in with.
    pub token: String,
}

impl Bot {
    /// A bot in `local_guild` logging in with `token`, with the default
    /// HTTP client, no presence and a single shard.
    pub fn new(local_guild: LocalGuild, token: String) -> (b: Bot)
        ensures
            b.local_guild == local_guild,
            b.token@ == token@,
            b.presence is None,
            b.http.proxy is None && b.http.proxy_use_http && !b.http.use_cache,
            b.http.timeout_secs == DEFAULT_HTTP_TIMEOUT_SECS,
            b.sharding matches Sharding::Single { id, total } && id == 0 && total.value() == 1,
    {
        Bot { http: Http::default(), local_guild, presence: None, sharding: Sharding::one(), token }
    }
}

} // verus!

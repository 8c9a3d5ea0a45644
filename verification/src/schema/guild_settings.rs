//! What each guild has set for the bot.

use vstd::prelude::*;
use crate::nonzero::NonZeroU64;

verus! {

/// The layout of stored guild settings.
#[derive(Clone, Copy, Debug, PartialEq, Eq, Structural)]
pub enum GuildSettingsVersion {
    V1,
}

impl Default for GuildSettingsVersion {
    fn default() -> (v: GuildSettingsVersion)
        ensures
            v == GuildSettingsVersion::V1,
    {
        GuildSettingsVersion::V1
    }
}

/// What payers may do in a guild.
#[derive(Clone, Copy, Debug, PartialEq, Eq, Structural)]
pub struct PayerGuildSettings {
    /// Members may apply to become payers by themselves.
    pub allow_self_register: bool,
}

impl PayerGuildSettings {
    /// Settings in which self registration is as given.
    pub fn new(allow_self_register: bool) -> (s: PayerGuildSettings)
        ensures
            s.allow_self_register == allow_self_register,
    {
        PayerGuildSettings { allow_self_register }
    }
}

impl Default for PayerGuildSettings {
    /// Self registration is allowed.
    fn default() -> (s: PayerGuildSettings)
        ensures
            s.allow_self_register,
    {
        PayerGuildSettings { allow_self_register: true }
    }
}

/// The settings of one guild.
#[derive(Clone, Copy, Debug, PartialEq, Eq, Structural)]
pub struct GuildSettings {
    pub version: GuildSettingsVersion,
    pub payers: PayerGuildSettings,
}

impl GuildSettings {
    /// Settings of the current layout with the given payer settings.
    pub fn new(payers: PayerGuildSettings) -> (s: GuildSettings)
        ensures
            s.version == GuildSettingsVersion::V1,
            s.payers == payers,
    {
        GuildSettings { version: GuildSettingsVersion::V1, payers }
    }
}

impl Default for GuildSettings {
    /// The current layout, and self registration allowed.
    fn default() -> (s: GuildSettings)
        ensures
            s.version == GuildSettingsVersion::V1,
            s.payers.allow_self_register,
    {
        GuildSettings { version: GuildSettingsVersion::V1, payers: PayerGuildSettings::default() }
    }
}

/// A guild's settings as stored, with the guild's id and when they were
/// stored and last changed (microseconds since the epoch).
#[derive(Clone, Copy, Debug)]
pub struct GuildSettingsRow {
    pub id: NonZeroU64,
    pub created_at: i64,
    pub updated_at: Option<i64>,
    pub data: GuildSettings,
}

impl GuildSettingsRow {
    /// The settings themselves.
    pub fn settings(&self) -> (r: &GuildSettings)
        ensures
            *r == self.data,
    {
        &self.data
    }
}

} // verus!

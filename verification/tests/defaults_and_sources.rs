use eden::nonzero::NonZeroU64;
use eden::settings::bot::{Bot, Http, LocalGuild};
use eden::settings::database::Database;
use eden::settings::logging::{Logging, LoggingStyle};
use eden::settings::sources::{alternative_sources, EnvRead, EnvVar, SourceKind};
use eden::settings::Settings;
use eden::tasks::backoff::{default_backoff, exponential};
use eden::tasks::defaults::{default_is_temporary, default_priority, default_timeout, default_trigger, DEFAULT_MAX_RETRIES};
use eden::tasks::time::TimeDelta;
use eden::tasks::trigger::TaskTrigger;
use eden::tasks_schema::task::TaskPriority;

fn value(s: &str) -> EnvRead {
    EnvRead::Value(s.to_string())
}

fn triples(r: Result<Vec<eden::settings::sources::SettingsSource>, EnvVar>) -> Vec<(String, String, SourceKind)> {
    r.unwrap().into_iter().map(|s| (s.key.to_string(), s.value, s.kind)).collect()
}

#[test]
fn task_type_defaults() {
    assert_eq!(DEFAULT_MAX_RETRIES, 5);
    assert_eq!(default_timeout().num_milliseconds(), 600_000);
    assert!(matches!(default_trigger(), TaskTrigger::OnDemand));
    assert_eq!(default_priority(), TaskPriority::Medium);
    assert_eq!(TaskPriority::default(), TaskPriority::Medium);
    assert!(!default_is_temporary());
}

#[test]
fn backoff_starts_at_one_minute_and_doubles() {
    assert_eq!(default_backoff(0).num_milliseconds(), 60_000);
    assert_eq!(default_backoff(1).num_milliseconds(), 120_000);
    assert_eq!(default_backoff(2).num_milliseconds(), 240_000);
    assert_eq!(default_backoff(10).num_milliseconds(), 60_000 * 1024);
    assert_eq!(default_backoff(u16::MAX).num_milliseconds(), i64::MAX);
    assert_eq!(exponential(TimeDelta::seconds(3), 3, 2).num_milliseconds(), 27_000);
    assert_eq!(exponential(TimeDelta::seconds(3), 0, 2).num_milliseconds(), 0);
    assert_eq!(exponential(TimeDelta::seconds(-1), 10, 30).num_milliseconds(), -i64::MAX);
}

#[test]
fn environment_sources() {
    let r = alternative_sources(false, value("postgres://db"), value("t1"), value("t2"), EnvRead::Unset, value("debug"));
    assert_eq!(
        triples(r),
        vec![
            ("database.url".to_string(), "postgres://db".to_string(), SourceKind::Override),
            ("bot.token".to_string(), "t1".to_string(), SourceKind::Default),
            ("logging.targets".to_string(), "debug".to_string(), SourceKind::Override),
        ]
    );

    // Release builds do not read DATABASE_URL at all.
    let r = alternative_sources(true, EnvRead::Invalid, EnvRead::Unset, value("t2"), EnvRead::Unset, EnvRead::Unset);
    assert!(triples(r).is_empty());

    // An unset TOKEN is taken as is: the other two are looked at only when it cannot be read.
    let r = alternative_sources(true, EnvRead::Unset, EnvRead::Invalid, value("t2"), value("t3"), EnvRead::Unset);
    assert_eq!(triples(r), vec![("bot.token".to_string(), "t2".to_string(), SourceKind::Default)]);
    let r = alternative_sources(true, EnvRead::Unset, EnvRead::Invalid, EnvRead::Invalid, value("t3"), EnvRead::Unset);
    assert_eq!(triples(r), vec![("bot.token".to_string(), "t3".to_string(), SourceKind::Default)]);

    let r = alternative_sources(false, EnvRead::Invalid, value("t"), EnvRead::Unset, EnvRead::Unset, EnvRead::Unset);
    assert_eq!(r.unwrap_err(), EnvVar::DatabaseUrl);
    let r = alternative_sources(true, EnvRead::Unset, EnvRead::Invalid, EnvRead::Invalid, EnvRead::Invalid, value("x"));
    assert_eq!(r.unwrap_err(), EnvVar::DiscordBotToken);
    let r = alternative_sources(true, EnvRead::Unset, EnvRead::Unset, EnvRead::Unset, EnvRead::Unset, EnvRead::Invalid);
    assert_eq!(r.unwrap_err(), EnvVar::RustLog);
    assert_eq!(EnvVar::RustLog.name(), "RUST_LOG");
    assert_eq!(EnvVar::DatabaseUrl.name(), "DATABASE_URL");
}

#[test]
fn bot_and_http_defaults() {
    let h = Http::default();
    assert!(h.proxy.is_none());
    assert!(h.proxy_use_http);
    assert_eq!(h.timeout_secs, 10);
    assert!(!h.use_cache);

    let guild = LocalGuild { id: NonZeroU64::new(1).unwrap(), alert_channel_id: NonZeroU64::new(2).unwrap() };
    let bot = Bot::new(guild, "token".to_string());
    assert_eq!(bot.token, "token");
    assert!(bot.presence.is_none());
    assert_eq!(bot.sharding.total(), 1);
    assert_eq!(bot.local_guild.alert_channel_id.get(), 2);
}

#[test]
fn settings_assembly() {
    let guild = LocalGuild { id: NonZeroU64::new(1).unwrap(), alert_channel_id: NonZeroU64::new(2).unwrap() };
    let db = Database::new("postgres://x".to_string(), None, None, None, None);
    let s = Settings::new(Bot::new(guild, "t".to_string()), db, None, None, Some(3));
    assert_eq!(s.threads, 3);
    assert_eq!(s.logging.style, LoggingStyle::Compact);
    assert_eq!(s.worker.max_task_retries(), 3);
    assert_eq!(s.path(), None);
    let s = s.with_path(Some("/etc/eden/settings.toml".to_string()));
    assert_eq!(s.path(), Some("/etc/eden/settings.toml"));

    let guild = LocalGuild { id: NonZeroU64::new(1).unwrap(), alert_channel_id: NonZeroU64::new(2).unwrap() };
    let db = Database::new("postgres://x".to_string(), None, None, None, None);
    let logging = Logging::new(LoggingStyle::JSON, None);
    let s = Settings::new(Bot::new(guild, "t".to_string()), db, Some(logging), None, None);
    assert!(s.threads >= 1);
    assert_eq!(s.logging.targets, "info");
}

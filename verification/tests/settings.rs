use eden::nonzero::{NonZeroU64, NonZeroUsize};
use eden::settings::database::Database;
use eden::settings::logging::{Logging, LoggingStyle};
use eden::settings::sharding::{Sharding, ShardingError};
use eden::settings::{default_workers, default_workers_for, SettingsLoadError};
use eden::tasks::settings::Settings;
use eden::tasks::time::TimeDelta;
use eden::tasks_schema::worker_id::WorkerId;

fn nz(n: u64) -> NonZeroU64 {
    NonZeroU64::new(n).unwrap()
}

#[test]
fn shard_check() {
    let case = Sharding::one();
    assert!(case.check().is_ok());

    let case = Sharding::Single { id: 0, total: nz(5) };
    assert!(case.check().is_ok());

    let case = Sharding::Single { id: 1, total: nz(1) };
    assert!(case.check().is_err());

    let case = Sharding::Single { id: 2, total: nz(1) };
    assert!(case.check().is_err());

    let case = Sharding::Range { start: 0, end: 1, total: nz(2) };
    assert!(case.check().is_ok());

    let case = Sharding::Range { start: 1, end: 1, total: nz(2) };
    assert!(case.check().is_ok());

    let case = Sharding::Range { start: 0, end: 0, total: nz(1) };
    assert!(case.check().is_ok());

    let case = Sharding::Range { start: 0, end: 2, total: nz(2) };
    assert!(case.check().is_err());

    let case = Sharding::Range { start: 2, end: 2, total: nz(2) };
    assert!(case.check().is_err());

    let case = Sharding::Range { start: 2, end: 0, total: nz(2) };
    assert!(case.check().is_err());

    let case = Sharding::Range { start: 2, end: 1, total: nz(3) };
    assert!(case.check().is_err());
}

#[test]
fn shard_test_first() {
    let default = Sharding::one();
    assert_eq!(default.first(), 0);

    let one = Sharding::Single { id: 0, total: nz(2) };
    assert_eq!(one.first(), 0);

    let one = Sharding::Single { id: 1, total: nz(2) };
    assert_eq!(one.first(), 1);

    let multiple = Sharding::Range { start: 0, end: 0, total: nz(1) };
    assert_eq!(multiple.first(), 0);

    let multiple = Sharding::Range { start: 1, end: 3, total: nz(4) };
    assert_eq!(multiple.first(), 1);
}

#[test]
fn shard_test_size() {
    let default = Sharding::one();
    assert_eq!(default.size(), 1);

    let one = Sharding::Single { id: 0, total: nz(2) };
    assert_eq!(one.size(), 1);

    let one = Sharding::Single { id: 1, total: nz(2) };
    assert_eq!(one.size(), 1);

    let multiple = Sharding::Range { start: 0, end: 0, total: nz(1) };
    assert_eq!(multiple.size(), 1);

    let multiple = Sharding::Range { start: 1, end: 3, total: nz(4) };
    assert_eq!(multiple.size(), 3);
}

#[test]
fn shard_test_total() {
    let default = Sharding::one();
    assert_eq!(default.total(), 1);

    let one = Sharding::Single { id: 0, total: nz(2) };
    assert_eq!(one.total(), 2);

    let one = Sharding::Single { id: 1, total: nz(2) };
    assert_eq!(one.total(), 2);

    let multiple = Sharding::Range { start: 0, end: 0, total: nz(1) };
    assert_eq!(multiple.total(), 1);

    let multiple = Sharding::Range { start: 1, end: 3, total: nz(4) };
    assert_eq!(multiple.total(), 4);
}

#[test]
fn shard_check_reports_each_broken_rule() {
    assert_eq!(Sharding::Single { id: 3, total: nz(3) }.check(), Err(ShardingError::IdNotBelowTotal));
    assert_eq!(Sharding::Range { start: 2, end: 1, total: nz(3) }.check(), Err(ShardingError::StartAfterEnd));
    assert_eq!(Sharding::Range { start: 3, end: 3, total: nz(3) }.check(), Err(ShardingError::StartNotBelowTotal));
    assert_eq!(Sharding::Range { start: 0, end: 3, total: nz(3) }.check(), Err(ShardingError::EndNotBelowTotal));
    assert_eq!(
        ShardingError::IdNotBelowTotal.message(),
        "`sharding.id` should not be equal or greater than the total"
    );
    assert_eq!(
        ShardingError::StartAfterEnd.message(),
        "`sharding.start` should not be more than `sharding.end`"
    );
}

#[test]
fn shard_default_is_one() {
    let s = Sharding::default();
    assert_eq!(s.first(), 0);
    assert_eq!(s.size(), 1);
    assert_eq!(s.total(), 1);
}

#[test]
fn logging_defaults() {
    let l = Logging::default();
    assert_eq!(l.style, LoggingStyle::Compact);
    assert_eq!(l.targets, "");
    assert_eq!(LoggingStyle::default(), LoggingStyle::Compact);

    let built = Logging::new(LoggingStyle::Pretty, None);
    assert_eq!(built.style, LoggingStyle::Pretty);
    assert_eq!(built.targets, "info");

    let given = Logging::new(LoggingStyle::JSON, Some("debug".to_string()));
    assert_eq!(given.targets, "debug");
}

#[test]
fn database_defaults_and_overrides() {
    let d = Database::new("postgres://postgres@localhost/eden".to_string(), None, None, None, None);
    assert_eq!(d.connect_timeout(), 15);
    assert_eq!(d.idle_timeout(), 600);
    assert_eq!(d.max_connections(), 10);
    assert_eq!(d.min_connections(), 0);
    assert_eq!(d.url(), "postgres://postgres@localhost/eden");

    let d = Database::new("postgres://x".to_string(), Some(3), Some(4), Some(5), Some(1));
    assert_eq!(d.connect_timeout(), 3);
    assert_eq!(d.idle_timeout(), 4);
    assert_eq!(d.max_connections(), 5);
    assert_eq!(d.min_connections(), 1);
}

#[test]
fn worker_threads_are_half_the_cores_and_at_least_one() {
    assert_eq!(default_workers_for(0), 1);
    assert_eq!(default_workers_for(1), 1);
    assert_eq!(default_workers_for(2), 1);
    assert_eq!(default_workers_for(3), 1);
    assert_eq!(default_workers_for(8), 4);
    assert_eq!(default_workers_for(9), 4);
    assert!(default_workers() >= 1);
    assert_eq!(default_workers(), default_workers_for(num_cpus::get_physical()));
}

#[test]
fn settings_load_error_message() {
    assert_eq!(SettingsLoadError.message(), "Could not load Eden settings");
}

#[test]
fn task_settings_defaults() {
    let s = Settings::default();
    assert_eq!(s.id(), WorkerId::one());
    assert_eq!(s.max_running_tasks(), 10);
    assert_eq!(s.max_task_retries(), 3);
    assert_eq!(s.queued_tasks_per_batch(), 50);
    assert_eq!(s.stalled_tasks_threshold().num_milliseconds(), 30 * 60 * 1000);

    let s = Settings::new(
        WorkerId::new(2, 3),
        NonZeroUsize::new(4).unwrap(),
        7,
        NonZeroU64::new(9).unwrap(),
        TimeDelta::minutes(1),
    );
    assert_eq!(s.id(), WorkerId::new(2, 3));
    assert_eq!(s.max_running_tasks(), 4);
    assert_eq!(s.max_task_retries(), 7);
    assert_eq!(s.queued_tasks_per_batch(), 9);
    assert_eq!(s.stalled_tasks_threshold().num_milliseconds(), 60_000);
}

fn candidate(path: &str, relative: bool, exists: bool, ancestor: Option<&str>, is_file: bool) -> eden::settings::path::PathCandidate {
    eden::settings::path::PathCandidate {
        path: path.to_string(),
        is_relative: relative,
        is_absolute: !relative,
        exists,
        ancestor_match: ancestor.map(|a| a.to_string()),
        is_file,
    }
}

#[test]
fn settings_path_resolution() {
    use_resolve_path_cases();
}

fn use_resolve_path_cases() {
    let resolve = eden::settings::path::resolve_path;
    let etc = candidate("/etc/eden/settings.toml", false, true, None, true);
    let missing_etc = candidate("/etc/eden/settings.toml", false, false, None, false);

    // An existing named file wins.
    let cs = vec![candidate("eden.toml", true, false, Some("/home/e/eden.toml"), false), etc.clone()];
    assert_eq!(resolve(Some("/srv/eden.toml".to_string()), true, &cs), Some("/srv/eden.toml".to_string()));

    // Otherwise the first candidate found in an ancestor.
    assert_eq!(resolve(None, false, &cs), Some("/home/e/eden.toml".to_string()));

    // A relative candidate that exists right here is passed over; an
    // absolute file keeps a named path that does not exist.
    let cs = vec![candidate("eden.toml", true, true, None, true), etc.clone()];
    assert_eq!(resolve(None, false, &cs), Some("/etc/eden/settings.toml".to_string()));
    assert_eq!(resolve(Some("/nowhere.toml".to_string()), false, &cs), Some("/nowhere.toml".to_string()));

    // Nothing found: the named path, if any.
    let cs = vec![candidate("eden.toml", true, false, None, false), missing_etc];
    assert_eq!(resolve(None, false, &cs), None);
    assert_eq!(resolve(Some("/nowhere.toml".to_string()), false, &cs), Some("/nowhere.toml".to_string()));
}

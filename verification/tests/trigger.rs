use eden::tasks::time::MAX_TIMESTAMP_MICROS;
use eden::tasks::time::TimeDelta;
use eden::tasks::trigger::TaskTrigger;

#[test]
fn should_not_get_upcoming_timestamp_if_none() {
    let schedule = TaskTrigger::OnDemand;
    assert_eq!(schedule.upcoming(None), None);
}

#[test]
fn should_add_duration_from_now_if_interval() {
    let now = chrono::Utc::now().timestamp_micros();
    let delta = TimeDelta::seconds(5);
    let schedule = TaskTrigger::Interval(delta);

    let expected = now + delta.num_milliseconds() * 1000;
    assert_eq!(schedule.upcoming(Some(now)), Some(expected));
}

#[test]
fn multiple_schedules_should_work() {
    let now = chrono::Utc::now().timestamp_micros();
    let shortest = TimeDelta::days(2);
    let longest = TimeDelta::days(5);

    let schedule = TaskTrigger::Multiple(vec![TaskTrigger::Interval(shortest), TaskTrigger::Interval(longest)]);

    let expected = now + shortest.num_milliseconds() * 1000;
    assert_eq!(schedule.upcoming(Some(now)), Some(expected));
}

#[test]
fn interval_fires_exactly_after_its_span() {
    // 2024-01-01T00:00:00Z
    let now: i64 = 1_704_067_200_000_000;
    let t = TaskTrigger::interval(TimeDelta::minutes(30));
    assert_eq!(t.upcoming_at(now), Some(now + 30 * 60 * 1_000_000));
    let t = TaskTrigger::interval(TimeDelta::milliseconds(-1500));
    assert_eq!(t.upcoming_at(now), Some(now - 1_500_000));
}

#[test]
fn interval_past_the_calendar_has_no_upcoming_time() {
    let last: i64 = eden::tasks::time::MAX_TIMESTAMP_MICROS;
    let t = TaskTrigger::interval(TimeDelta::seconds(1));
    assert_eq!(t.upcoming_at(last), None);
    let t = TaskTrigger::interval(TimeDelta::seconds(0));
    assert_eq!(t.upcoming_at(last), Some(last));
}

#[test]
fn multiple_fires_at_the_earliest_and_ignores_on_demand() {
    let now: i64 = 1_704_067_200_000_000;
    let t = TaskTrigger::Multiple(vec![
        TaskTrigger::OnDemand,
        TaskTrigger::Interval(TimeDelta::seconds(90)),
        TaskTrigger::Multiple(vec![TaskTrigger::Interval(TimeDelta::seconds(30))]),
        TaskTrigger::Interval(TimeDelta::seconds(60)),
    ]);
    assert_eq!(t.upcoming_at(now), Some(now + 30_000_000));
    assert!(t.is_recurring());

    let only_on_demand = TaskTrigger::Multiple(vec![TaskTrigger::OnDemand, TaskTrigger::Multiple(vec![])]);
    assert_eq!(only_on_demand.upcoming_at(now), None);
    assert!(!only_on_demand.is_recurring());
}

#[test]
fn recurring_triggers() {
    assert!(!TaskTrigger::OnDemand.is_recurring());
    assert!(TaskTrigger::interval(TimeDelta::seconds(1)).is_recurring());
    assert!(TaskTrigger::cron("0 * * * * *").unwrap().is_recurring());
}

#[test]
fn cron_triggers() {
    let error = TaskTrigger::cron("not a cron expression").unwrap_err();
    assert_eq!(error.message(), "invalid cron expression");
    let t = TaskTrigger::cron("0 0 * * * *").unwrap();
    match &t {
        TaskTrigger::Cron(c) => assert_eq!(c.source(), "0 0 * * * *"),
        _ => panic!("expected a cron trigger"),
    }
    // 2024-01-01T00:30:00Z: the next full hour is 01:00.
    let now: i64 = 1_704_069_000_000_000;
    assert_eq!(t.upcoming_at(now), Some(1_704_070_800_000_000));
}

#[test]
fn cron_has_no_upcoming_time_at_the_end_of_the_calendar() {
    let t = TaskTrigger::cron("0 0 * * * *").unwrap();
    assert_eq!(t.upcoming_at(MAX_TIMESTAMP_MICROS), None);
    assert_eq!(t.upcoming_at(MAX_TIMESTAMP_MICROS - 999_999), None);
    assert_eq!(t.upcoming_at(MAX_TIMESTAMP_MICROS - 1_000_000), None);
    let both = TaskTrigger::Multiple(vec![t, TaskTrigger::Interval(TimeDelta::seconds(5))]);
    assert_eq!(both.upcoming_at(MAX_TIMESTAMP_MICROS), None);
}

#[test]
fn cron_refuses_a_step_of_zero() {
    assert!(TaskTrigger::cron("*/0 * * * * *").is_err());
    assert!(TaskTrigger::cron("0 */00 * * * *").is_err());
    assert!(TaskTrigger::cron("*/ 0 * * * * *").is_err());
    assert!(TaskTrigger::cron("0 0 1/0 * * *").is_err());
    assert!(TaskTrigger::cron("*/10 * * * * *").is_ok());
    assert!(TaskTrigger::cron("*/05 * * * * *").is_ok());
    // Every 10 seconds: from 00:30:00 the next match is 00:30:10.
    let t = TaskTrigger::cron("*/10 * * * * *").unwrap();
    assert_eq!(t.upcoming_at(1_704_069_000_000_000), Some(1_704_069_010_000_000));
}

#[test]
fn cron_search_from_a_leap_day() {
    // 2024-02-29T00:00:00Z, one second after `now`.
    let leap_day: i64 = 1_709_164_800_000_000;
    let now = leap_day - 1_000_000;
    // Every hour: the leap day's midnight itself matches.
    let hourly = TaskTrigger::cron("0 0 * * * *").unwrap();
    assert_eq!(hourly.upcoming_at(now), Some(leap_day));
    // The year is listed: the same.
    let listed = TaskTrigger::cron("0 0 0 * * * 2024").unwrap();
    assert_eq!(listed.upcoming_at(now), Some(leap_day));
    // The year is not listed: no search is made.
    let unlisted = TaskTrigger::cron("0 0 0 * * * 2025").unwrap();
    assert_eq!(unlisted.upcoming_at(now), None);
    // From another day the next listed year is found: searching from
    // 2024-01-01T00:00:00Z gives 2025-01-01T00:00:00Z.
    assert_eq!(unlisted.upcoming_at(1_704_067_200_000_000 - 1_000_000), Some(1_735_689_600_000_000));
}

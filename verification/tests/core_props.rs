use hh_notifier::clock::admit_reading;
use hh_notifier::config::BotConfig;
use hh_notifier::crontime::CronTime;
use hh_notifier::crontime::CronTimeCreationError;
use hh_notifier::decimal::parse_u64;
use hh_notifier::decimal::u64_to_string;
use hh_notifier::env_vars::EnvVars;
use hh_notifier::env_vars::EnvVarsLoadingError;
use hh_notifier::messages_generator::MessageManager;
use hh_notifier::window::in_window;
use hh_notifier::window::next_end_unix;
use hh_notifier::window::next_start_unix;

fn cfg(start: u64, end: u64, shift: u64) -> BotConfig {
    BotConfig {
        role_id: 99,
        start,
        end,
        notify_shift: shift,
        channel_id: 7,
    }
}

// 2024-01-01T00:00:00Z
const DAY: u64 = 1704067200;

#[test]
fn next_start_before_window() {
    let c = cfg(18, 22, 10);
    let now = DAY + 10 * 3600; // 2024-01-01T10:00:00Z
    assert_eq!(next_start_unix(&c, now), 1704132000); // 2024-01-01T18:00:00Z
    assert!(!in_window(&c, now));
}

#[test]
fn refresh_body_before_window() {
    let c = cfg(18, 22, 10);
    let now = DAY + 10 * 3600;
    let m = MessageManager::new(c);
    let body = m.info_str(now);
    assert!(body.starts_with("Happy Hour starts <t:1704132000:R>"));
    assert_eq!(body, "Happy Hour starts <t:1704132000:R> at <t:1704132000:t>");
}

#[test]
fn refresh_body_during_window() {
    let c = cfg(18, 22, 10);
    let now = DAY + 20 * 3600; // 2024-01-01T20:00:00Z
    assert!(in_window(&c, now));
    let m = MessageManager::new(c);
    let body = m.info_str(now);
    assert!(body.starts_with("Happy Hour ends <t:1704146400:R>"));
    assert_eq!(body, "Happy Hour ends <t:1704146400:R> at <t:1704146400:t>");
}

#[test]
fn next_instants_within_one_day() {
    let c = cfg(18, 22, 10);
    for now in [0u64, DAY, DAY + 1, DAY + 17 * 3600 + 59 * 60, DAY + 18 * 3600, DAY + 86399] {
        let s = next_start_unix(&c, now);
        let e = next_end_unix(&c, now);
        assert!(s > now && s <= now + 86400);
        assert!(e > now && e <= now + 86400);
    }
}

#[test]
fn window_crossing_midnight() {
    let c = cfg(22, 2, 10);
    assert!(in_window(&c, DAY + 23 * 3600));
    assert!(in_window(&c, DAY + 1 * 3600));
    assert!(!in_window(&c, DAY + 3 * 3600));
    assert!(!in_window(&c, DAY + 21 * 3600));
}

#[test]
fn window_boundaries_half_open() {
    let c = cfg(18, 22, 10);
    assert!(in_window(&c, DAY + 18 * 3600));
    assert!(in_window(&c, DAY + 22 * 3600 - 1));
    assert!(!in_window(&c, DAY + 22 * 3600));
}

#[test]
fn cron_expressions_with_shift() {
    let ct = CronTime::new(18, 22, 10).unwrap();
    assert_eq!(ct.update(), "0 * * * * *");
    assert_eq!(ct.notify(), "40 50 17 * * *");
    assert_eq!(ct.end(), "20 0 22 * * *");
}

#[test]
fn cron_notify_zero_shift_keeps_sixty() {
    let ct = CronTime::new(18, 22, 0).unwrap();
    assert_eq!(ct.notify(), "40 60 18 * * *");
}

#[test]
fn cron_notify_wraps_at_midnight() {
    let ct = CronTime::new(0, 4, 10).unwrap();
    assert_eq!(ct.notify(), "40 50 23 * * *");
}

#[test]
fn cron_time_rejects_out_of_range() {
    assert!(matches!(CronTime::new(25, 22, 10), Err(CronTimeCreationError::Start)));
    assert!(matches!(CronTime::new(24, 25, 10), Err(CronTimeCreationError::End)));
    assert!(matches!(CronTime::new(24, 24, 60), Err(CronTimeCreationError::Shift)));
    assert!(CronTime::new(24, 24, 59).is_ok());
}

#[test]
fn notify_body_mentions_role() {
    let m = MessageManager::new(cfg(18, 22, 10));
    assert_eq!(m.notify_str(), "<@&99> Happy Hour!");
}

#[test]
fn decimal_renders() {
    assert_eq!(u64_to_string(0), "0");
    assert_eq!(u64_to_string(7), "7");
    assert_eq!(u64_to_string(1234), "1234");
    assert_eq!(u64_to_string(u64::MAX), "18446744073709551615");
}

#[test]
fn decimal_parses() {
    assert_eq!(parse_u64("0"), Some(0));
    assert_eq!(parse_u64("123"), Some(123));
    assert_eq!(parse_u64("+42"), Some(42));
    assert_eq!(parse_u64("18446744073709551615"), Some(u64::MAX));
    assert_eq!(parse_u64("18446744073709551616"), None);
    assert_eq!(parse_u64(""), None);
    assert_eq!(parse_u64("+"), None);
    assert_eq!(parse_u64("1x"), None);
    assert_eq!(parse_u64("-1"), None);
    assert_eq!(parse_u64(" 1"), None);
    assert_eq!(parse_u64("über"), None);
}

#[test]
fn decimal_round_trip() {
    for n in [0u64, 1, 9, 10, 59, 60, 86399, 1704132000, u64::MAX] {
        assert_eq!(parse_u64(&u64_to_string(n)), Some(n));
    }
}

fn full_values() -> [Option<String>; 6] {
    [
        Some("example-token".to_string()),
        Some("99".to_string()),
        Some("7".to_string()),
        Some("18".to_string()),
        Some("22".to_string()),
        Some("10".to_string()),
    ]
}

fn load(vals: [Option<String>; 6]) -> Result<EnvVars, EnvVarsLoadingError> {
    let [token, role, chan, start, end, shift] = vals;
    EnvVars::from_values(token, role, chan, start, end, shift)
}

#[test]
fn env_vars_ok_and_config() {
    let v = load(full_values()).unwrap();
    assert_eq!(v.token, "example-token");
    assert_eq!(v.role_id, 99);
    assert_eq!(v.channel_id, 7);
    assert_eq!(v.start_hour, 18);
    assert_eq!(v.end_hour, 22);
    assert_eq!(v.notify_shift, 10);
    let c = v.to_bot_config();
    assert_eq!(c.role_id, 99);
    assert_eq!(c.channel_id, 7);
    assert_eq!(c.start, 18);
    assert_eq!(c.end, 22);
    assert_eq!(c.notify_shift, 10);
}

#[test]
fn env_vars_missing_reported_per_variable() {
    let errs = [
        EnvVarsLoadingError::Token,
        EnvVarsLoadingError::RoleId,
        EnvVarsLoadingError::ChannelId,
        EnvVarsLoadingError::StartHour,
        EnvVarsLoadingError::EndHour,
        EnvVarsLoadingError::TimeShift,
    ];
    for (i, expected) in errs.iter().enumerate() {
        let mut vals = full_values();
        vals[i] = None;
        assert_eq!(load(vals).unwrap_err(), *expected);
    }
}

#[test]
fn env_vars_unparseable_reported_per_variable() {
    let errs = [
        EnvVarsLoadingError::RoleIdParsing,
        EnvVarsLoadingError::ChannelIdParsing,
        EnvVarsLoadingError::StartHourParsing,
        EnvVarsLoadingError::EndHourParsing,
        EnvVarsLoadingError::TimeShiftParsing,
    ];
    for (i, expected) in errs.iter().enumerate() {
        let mut vals = full_values();
        vals[i + 1] = Some("eighteen".to_string());
        assert_eq!(load(vals).unwrap_err(), *expected);
    }
}

#[test]
fn env_vars_first_failure_wins() {
    let mut vals = full_values();
    vals[1] = Some("bad".to_string());
    vals[2] = None;
    assert_eq!(load(vals).unwrap_err(), EnvVarsLoadingError::RoleIdParsing);
}

#[test]
fn clock_admits_exactly_the_nonnegative_readings() {
    assert_eq!(admit_reading(-1), None);
    assert_eq!(admit_reading(i64::MIN), None);
    assert_eq!(admit_reading(0), Some(0));
    assert_eq!(admit_reading(1704132000), Some(1704132000));
    assert_eq!(admit_reading(i64::MAX), Some(i64::MAX as u64));
}

#[test]
fn clock_reads_a_plausible_time() {
    let t = hh_notifier::clock::current_unix_time().unwrap();
    // 2020-01-01T00:00:00Z; the test machine's clock is after that.
    assert!(t > 1577836800);
}

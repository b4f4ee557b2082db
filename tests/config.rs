use tibber_status::config::{
    log_level_from, retries_from, retries_of, wake_hour_from, wake_hour_of, ConfigError, LogLevel,
};

#[test]
fn retries_default_and_parsed() {
    assert!(matches!(retries_from(None), Ok(10)));
    assert!(matches!(retries_from(Some("3")), Ok(3)));
    assert!(matches!(retries_from(Some("abc")), Ok(10)));
    assert!(matches!(retries_from(Some("64")), Ok(64)));
    assert!(matches!(retries_from(Some("65")), Err(ConfigError::TooManyRetries)));
}

#[test]
fn wake_hour_default_and_parsed() {
    assert!(matches!(wake_hour_from(None), Ok(11)));
    assert!(matches!(wake_hour_from(Some("7")), Ok(7)));
    assert!(matches!(wake_hour_from(Some("24")), Err(ConfigError::BadWakeHour)));
    assert!(matches!(wake_hour_from(Some("noon")), Err(ConfigError::BadWakeHour)));
}

#[test]
fn log_levels() {
    assert!(matches!(log_level_from(Some("trace")), LogLevel::Trace));
    assert!(matches!(log_level_from(Some("debug")), LogLevel::Debug));
    assert!(matches!(log_level_from(Some("info")), LogLevel::Info));
    assert!(matches!(log_level_from(Some("warn")), LogLevel::Warn));
    assert!(matches!(log_level_from(Some("error")), LogLevel::Error));
    assert!(matches!(log_level_from(Some("loud")), LogLevel::Info));
    assert!(matches!(log_level_from(None), LogLevel::Info));
}

#[test]
fn retries_from_parsed_value() {
    assert!(matches!(retries_of(None), Ok(10)));
    assert!(matches!(retries_of(Some(0)), Ok(0)));
    assert!(matches!(retries_of(Some(64)), Ok(64)));
    assert!(matches!(retries_of(Some(65)), Err(ConfigError::TooManyRetries)));
    assert!(matches!(retries_from(Some("+5")), Ok(5)));
    assert!(matches!(retries_from(Some("-5")), Ok(10)));
    assert!(matches!(retries_from(Some("")), Ok(10)));
    assert!(matches!(retries_from(Some("4294967296")), Ok(10)));
}

#[test]
fn wake_hour_from_parsed_value() {
    assert!(matches!(wake_hour_of(Some(0)), Ok(0)));
    assert!(matches!(wake_hour_of(Some(23)), Ok(23)));
    assert!(matches!(wake_hour_of(Some(24)), Err(ConfigError::BadWakeHour)));
    assert!(matches!(wake_hour_of(None), Err(ConfigError::BadWakeHour)));
}

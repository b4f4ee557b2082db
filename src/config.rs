use crate::retry::MAX_ATTEMPTS_LIMIT;
use vstd::prelude::*;

verus! {

/// Attempts per cycle when none is configured.
pub const DEFAULT_RETRIES: u32 = 10;

/// Wake hour (UTC) when none is configured.
pub const DEFAULT_WAKE_HOUR: u32 = 11;

/// A configuration value that cannot be used.
pub enum ConfigError {
    /// More attempts than the backoff can count in seconds.
    TooManyRetries,
    /// The wake hour is not a number, or not an hour of the day.
    BadWakeHour,
}

/// Verbosity of the log.
pub enum LogLevel {
    Trace,
    Debug,
    Info,
    Warn,
    Error,
}

/// Whether every character of `s` is an ASCII decimal digit.
pub open spec fn all_digits(s: Seq<char>) -> bool {
    forall|i: int| 0 <= i < s.len() ==> '0' <= #[trigger] s[i] <= '9'
}

/// The value of the decimal digits `s`, most significant first.
pub open spec fn digits_value(s: Seq<char>) -> nat
    decreases s.len(),
{
    if s.len() == 0 {
        0
    } else {
        digits_value(s.drop_last()) * 10 + (s.last() as nat - '0' as nat) as nat
    }
}

/// The `u32` that `s` writes in decimal: an optional `+`, then one or more
/// ASCII digits, with a value that fits; `None` for anything else.
pub open spec fn decimal_u32(s: Seq<char>) -> Option<u32> {
    let digits = if s.len() > 0 && s[0] == '+' {
        s.drop_first()
    } else {
        s
    };
    if digits.len() > 0 && all_digits(digits) && digits_value(digits) <= u32::MAX {
        Some(digits_value(digits) as u32)
    } else {
        None
    }
}

/// Relies on `str::parse::<u32>` (`u32::from_str`): a leading `+`, then
/// decimal digits whose value fits; anything else is an error.
#[verifier::external_body]
fn parse_u32(s: &str) -> (r: Option<u32>)
    ensures
        r == decimal_u32(s@),
{
    s.parse::<u32>().ok()
}

/// Attempts per cycle from the parsed setting (`None` where none was given or
/// it was not a number): the default, or the number where the backoff can
/// count it.
pub fn retries_of(parsed: Option<u32>) -> (r: Result<u32, ConfigError>)
    ensures
        match parsed {
            None => r == Ok::<u32, ConfigError>(DEFAULT_RETRIES),
            Some(n) => if n <= MAX_ATTEMPTS_LIMIT {
                r == Ok::<u32, ConfigError>(n)
            } else {
                r is Err && r->Err_0 is TooManyRetries
            },
        },
{
    match parsed {
        None => Ok(DEFAULT_RETRIES),
        Some(n) => if n > MAX_ATTEMPTS_LIMIT {
            Err(ConfigError::TooManyRetries)
        } else {
            Ok(n)
        },
    }
}

/// The configured attempts per cycle, before the bound is checked.
pub open spec fn retries_spec(value: Option<&str>) -> Option<u32> {
    match value {
        None => None,
        Some(s) => decimal_u32(s@),
    }
}

/// Attempts per cycle from the configured text: the default where none is
/// given or it is not a number, an error where it exceeds what the backoff
/// can count.
pub fn retries_from(value: Option<&str>) -> (r: Result<u32, ConfigError>)
    ensures
        match retries_spec(value) {
            None => r == Ok::<u32, ConfigError>(DEFAULT_RETRIES),
            Some(n) => if n <= MAX_ATTEMPTS_LIMIT {
                r == Ok::<u32, ConfigError>(n)
            } else {
                r is Err && r->Err_0 is TooManyRetries
            },
        },
{
    let parsed = match value {
        None => None,
        Some(s) => parse_u32(s),
    };
    retries_of(parsed)
}

/// The wake hour from a parsed setting (`None` where it was not a number): an
/// error unless it is an hour of the day.
pub fn wake_hour_of(parsed: Option<u32>) -> (r: Result<u32, ConfigError>)
    ensures
        match parsed {
            Some(h) => if h < 24 {
                r == Ok::<u32, ConfigError>(h)
            } else {
                r is Err && r->Err_0 is BadWakeHour
            },
            None => r is Err && r->Err_0 is BadWakeHour,
        },
{
    match parsed {
        Some(h) => if h < 24 {
            Ok(h)
        } else {
            Err(ConfigError::BadWakeHour)
        },
        None => Err(ConfigError::BadWakeHour),
    }
}

/// The wake hour from the configured text: the default where none is given,
/// an error where it is not a number below 24.
pub fn wake_hour_from(value: Option<&str>) -> (r: Result<u32, ConfigError>)
    ensures
        value is None ==> r == Ok::<u32, ConfigError>(DEFAULT_WAKE_HOUR),
        value matches Some(s) ==> match decimal_u32(s@) {
            Some(h) => if h < 24 {
                r == Ok::<u32, ConfigError>(h)
            } else {
                r is Err && r->Err_0 is BadWakeHour
            },
            None => r is Err && r->Err_0 is BadWakeHour,
        },
{
    match value {
        None => Ok(DEFAULT_WAKE_HOUR),
        Some(s) => wake_hour_of(parse_u32(s)),
    }
}

/// The log level a name selects; anything else, or no name, selects `Info`.
pub open spec fn log_level_spec(value: Option<&str>) -> LogLevel {
    match value {
        None => LogLevel::Info,
        Some(s) => if s@ == "trace"@ {
            LogLevel::Trace
        } else if s@ == "debug"@ {
            LogLevel::Debug
        } else if s@ == "warn"@ {
            LogLevel::Warn
        } else if s@ == "error"@ {
            LogLevel::Error
        } else {
            LogLevel::Info
        },
    }
}

/// The log level from the configured name.
pub fn log_level_from(value: Option<&str>) -> (r: LogLevel)
    ensures
        r == log_level_spec(value),
{
    match value {
        None => LogLevel::Info,
        Some(s) => {
            let name = s.to_owned();
            if name == "trace".to_owned() {
                LogLevel::Trace
            } else if name == "debug".to_owned() {
                LogLevel::Debug
            } else if name == "warn".to_owned() {
                LogLevel::Warn
            } else if name == "error".to_owned() {
                LogLevel::Error
            } else {
                LogLevel::Info
            }
        },
    }
}

} // verus!

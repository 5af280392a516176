//! Which messages the server logs.
use vstd::prelude::*;

verus! {

/// The most detailed level of message that is logged.
#[derive(Clone, Copy, Debug, PartialEq, Eq, Structural)]
pub enum LogLevel {
    Debug,
    Info,
    Warn,
    Error,
}

/// The lowercase form of `s` (`str::to_lowercase`, by Unicode's rules).
pub uninterp spec fn lowercase(s: Seq<char>) -> Seq<char>;

/// `str::to_lowercase`. Claimed: the result is named by `lowercase`.
#[verifier::external_body]
fn to_lowercase(s: &str) -> (r: String)
    ensures
        r@ == lowercase(s@),
{
    s.to_lowercase()
}

/// The level a name selects, ignoring case: `debug`, `info`, `warn` or
/// `error`; any other name selects `info`.
pub open spec fn log_level_of(name: Seq<char>) -> LogLevel {
    let l = lowercase(name);
    if l == "debug"@ {
        LogLevel::Debug
    } else if l == "info"@ {
        LogLevel::Info
    } else if l == "warn"@ {
        LogLevel::Warn
    } else if l == "error"@ {
        LogLevel::Error
    } else {
        LogLevel::Info
    }
}

/// The log level selected by `name`.
pub fn log_level_from_name(name: &str) -> (level: LogLevel)
    ensures
        level == log_level_of(name@),
{
    let l = to_lowercase(name);
    if l.eq(&"debug".to_owned()) {
        LogLevel::Debug
    } else if l.eq(&"info".to_owned()) {
        LogLevel::Info
    } else if l.eq(&"warn".to_owned()) {
        LogLevel::Warn
    } else if l.eq(&"error".to_owned()) {
        LogLevel::Error
    } else {
        LogLevel::Info
    }
}

} // verus!

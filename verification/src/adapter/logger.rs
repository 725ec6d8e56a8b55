//! The log level named in the configuration.
use vstd::prelude::*;
use crate::text::{str_eq, to_lowercase, unicode_lowercase};

verus! {

/// The least severe level that the log keeps.
#[derive(Clone, Copy, Debug, PartialEq, Eq, Structural)]
pub enum LevelFilter {
    Debug,
    Info,
    Warn,
    Error,
}

/// The level a lower-cased name stands for: `info`, `warn` and `error` name theirs, any
/// other name means debug.
pub open spec fn level_of(lowercase: Seq<char>) -> LevelFilter {
    if lowercase == "info"@ {
        LevelFilter::Info
    } else if lowercase == "warn"@ {
        LevelFilter::Warn
    } else if lowercase == "error"@ {
        LevelFilter::Error
    } else {
        LevelFilter::Debug
    }
}

/// The level that `init` sets for the configured name, compared without case.
pub fn level_filter(level: &str) -> (r: LevelFilter)
    ensures
        r == level_of(unicode_lowercase(level@)),
{
    let lower = to_lowercase(level);
    if str_eq(lower.as_str(), "info") {
        LevelFilter::Info
    } else if str_eq(lower.as_str(), "warn") {
        LevelFilter::Warn
    } else if str_eq(lower.as_str(), "error") {
        LevelFilter::Error
    } else {
        LevelFilter::Debug
    }
}

} // verus!

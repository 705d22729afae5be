//! The logging modes and how a configured setting selects one.
use vstd::prelude::*;

verus! {

/// How much a logging connection reports about the queries it runs.
#[derive(Debug, Clone, Copy, PartialEq, Eq, Structural)]
pub enum DbLogMode {
    /// Do not log.
    NoLog,
    /// Log in moderation: severity grows with the duration of the query.
    Standard,
    /// Log every query as a warning.
    Verbose,
    /// Print every query, with the wall-clock time at which it started.
    Excessive,
    /// As `Excessive`, but only the start of each query is printed.
    ExcessiveMini,
}

impl DbLogMode {
    /// True exactly when nothing is to be timed or logged.
    pub fn do_not_log(self) -> (r: bool)
        ensures
            r == (self == DbLogMode::NoLog),
    {
        self == DbLogMode::NoLog
    }
}

/// What `str::to_lowercase` makes of a text.
pub uninterp spec fn lower_of(s: Seq<char>) -> Seq<char>;

/// Relies on `str::to_lowercase`: the lowercase form of `s`, which depends on
/// the characters of `s` alone.
#[verifier::external_body]
fn to_lower(s: &str) -> (r: String)
    ensures
        r@ == lower_of(s@),
{
    s.to_lowercase()
}

/// The mode that a lowercase setting names; any other text names `NoLog`.
pub open spec fn mode_named(name: Seq<char>) -> DbLogMode {
    if name == "standard"@ {
        DbLogMode::Standard
    } else if name == "verbose"@ {
        DbLogMode::Verbose
    } else if name == "excessive"@ {
        DbLogMode::Excessive
    } else if name == "excessive-mini"@ {
        DbLogMode::ExcessiveMini
    } else {
        DbLogMode::NoLog
    }
}

/// The mode that a configured setting selects, when there is one.
pub open spec fn mode_of_setting(setting: Option<Seq<char>>) -> DbLogMode {
    match setting {
        Some(s) => mode_named(lower_of(s)),
        None => DbLogMode::NoLog,
    }
}

impl DbLogMode {
    /// The mode that an already lowercase setting names: "standard",
    /// "verbose", "excessive" or "excessive-mini"; `NoLog` for any other text.
    pub fn from_lowercase_name(name: &str) -> (r: DbLogMode)
        ensures
            r == mode_named(name@),
    {
        let name = String::from_str(name);
        if name == String::from_str("standard") {
            DbLogMode::Standard
        } else if name == String::from_str("verbose") {
            DbLogMode::Verbose
        } else if name == String::from_str("excessive") {
            DbLogMode::Excessive
        } else if name == String::from_str("excessive-mini") {
            DbLogMode::ExcessiveMini
        } else {
            DbLogMode::NoLog
        }
    }

    /// The mode that the logging setting of the environment selects, read
    /// without regard to case; `NoLog` where nothing is set or the text names
    /// no mode.
    pub fn from_env(setting: Option<&str>) -> (r: DbLogMode)
        ensures
            r == mode_of_setting(
                match setting {
                    Some(s) => Some(s@),
                    None => None,
                },
            ),
    {
        match setting {
            Some(s) => {
                let lower = to_lower(s);
                DbLogMode::from_lowercase_name(lower.as_str())
            },
            None => DbLogMode::NoLog,
        }
    }
}

} // verus!

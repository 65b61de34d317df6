//! Level policies: the pluggable capability that chooses the default
//! severity and the help text for the two counting flags.

use vstd::prelude::*;

use crate::level::Level;
use crate::level::TracingLevelFilter;
use crate::level::opt_level_rank;
use crate::level::tracing_opt_rank;

verus! {

/// A level policy: a stateless capability giving the severity selected at
/// zero net verbosity, and the help strings for the verbosity-increase and
/// verbosity-decrease flags.
///
/// The default severity is conceptually one value, materialized once per
/// severity flavour; the contract on [`LogLevel::default_tracing`] holds
/// every implementation to the same rank in both flavours.
pub trait LogLevel {
    /// The severity selected at zero net verbosity; `None` means no output
    /// is produced until the verbosity is raised.
    spec fn spec_default() -> Option<Level>;

    /// The default severity, `log`-flavoured.
    fn default_log() -> (r: Option<Level>)
        ensures
            r == Self::spec_default(),
    ;

    /// The default severity, `tracing`-flavoured: a threshold of the same
    /// rank as the `log`-flavoured default.
    fn default_tracing() -> (r: Option<TracingLevelFilter>)
        ensures
            tracing_opt_rank(r) == opt_level_rank(Self::spec_default()),
    ;

    /// Help text for the verbosity-increase flag; a policy that does not
    /// override it gets the fixed short form.
    fn verbose_help() -> (r: Option<&'static str>)
        default_ensures
            (match r {
                Option::Some(s) => s@ == "More output per occurrence"@,
                Option::None => false,
            }),
    {
        Option::Some("More output per occurrence")
    }

    /// Long help text for the verbosity-increase flag; a policy that does
    /// not override it gets none.
    fn verbose_long_help() -> (r: Option<&'static str>)
        default_ensures
            r is None,
    {
        Option::None
    }

    /// Help text for the verbosity-decrease flag; a policy that does not
    /// override it gets the fixed short form.
    fn quiet_help() -> (r: Option<&'static str>)
        default_ensures
            (match r {
                Option::Some(s) => s@ == "Less output per occurrence"@,
                Option::None => false,
            }),
    {
        Option::Some("Less output per occurrence")
    }

    /// Long help text for the verbosity-decrease flag; a policy that does
    /// not override it gets none.
    fn quiet_long_help() -> (r: Option<&'static str>)
        default_ensures
            r is None,
    {
        Option::None
    }
}

/// The policy that shows errors only at zero net verbosity.
#[derive(Clone, Copy, Debug, Default)]
pub struct ErrorLevel;

impl LogLevel for ErrorLevel {
    open spec fn spec_default() -> Option<Level> {
        Option::Some(Level::Error)
    }

    fn default_log() -> (r: Option<Level>) {
        Option::Some(Level::Error)
    }

    fn default_tracing() -> (r: Option<TracingLevelFilter>) {
        Option::Some(TracingLevelFilter::Error)
    }
}

/// The policy that shows warnings and errors at zero net verbosity.
#[derive(Clone, Copy, Debug, Default)]
pub struct WarnLevel;

impl LogLevel for WarnLevel {
    open spec fn spec_default() -> Option<Level> {
        Option::Some(Level::Warn)
    }

    fn default_log() -> (r: Option<Level>) {
        Option::Some(Level::Warn)
    }

    fn default_tracing() -> (r: Option<TracingLevelFilter>) {
        Option::Some(TracingLevelFilter::Warn)
    }
}

/// The policy that shows informational output and above at zero net
/// verbosity.
#[derive(Clone, Copy, Debug, Default)]
pub struct InfoLevel;

impl LogLevel for InfoLevel {
    open spec fn spec_default() -> Option<Level> {
        Option::Some(Level::Info)
    }

    fn default_log() -> (r: Option<Level>) {
        Option::Some(Level::Info)
    }

    fn default_tracing() -> (r: Option<TracingLevelFilter>) {
        Option::Some(TracingLevelFilter::Info)
    }
}

} // verus!

//! The severity scale and the verbosity-to-severity mappings.
//!
//! The scale is ordered no output < Error < Warn < Info < Debug < Trace and
//! is represented internally by a rank: -1 for no output, 0 for Error up to
//! 4 for Trace. A signed verbosity is clamped onto this scale: anything
//! below 0 means no output, anything at 4 or above means Trace.

use vstd::prelude::*;

verus! {

/// A severity at which output is produced, `log`-flavoured: "no output" is
/// not a variant here and is expressed as `None` by the callers.
#[derive(Clone, Copy, Debug, PartialEq, Eq, Structural)]
pub enum Level {
    Error,
    Warn,
    Info,
    Debug,
    Trace,
}

/// An inclusive severity threshold, `log`-flavoured: show the named level
/// and everything more severe; `Off` shows nothing.
#[derive(Clone, Copy, Debug, PartialEq, Eq, Structural)]
pub enum LevelFilter {
    Off,
    Error,
    Warn,
    Info,
    Debug,
    Trace,
}

/// An inclusive severity threshold, `tracing`-flavoured; `Off` shows
/// nothing. This flavour uses the same threshold type both as a severity
/// and as a filter.
#[derive(Clone, Copy, Debug, PartialEq, Eq, Structural)]
pub enum TracingLevelFilter {
    Off,
    Error,
    Warn,
    Info,
    Debug,
    Trace,
}

/// The rank of a severity on the scale: Error is 0, Trace is 4.
pub open spec fn level_rank(level: Level) -> int {
    match level {
        Level::Error => 0,
        Level::Warn => 1,
        Level::Info => 2,
        Level::Debug => 3,
        Level::Trace => 4,
    }
}

/// The rank of an optional severity: `None` stands for "no output", rank -1.
pub open spec fn opt_level_rank(level: Option<Level>) -> int {
    match level {
        Option::None => -1,
        Option::Some(l) => level_rank(l),
    }
}

/// The rank of a `tracing`-flavoured threshold: `Off` is -1, Error is 0,
/// Trace is 4.
pub open spec fn tracing_rank(filter: TracingLevelFilter) -> int {
    match filter {
        TracingLevelFilter::Off => -1,
        TracingLevelFilter::Error => 0,
        TracingLevelFilter::Warn => 1,
        TracingLevelFilter::Info => 2,
        TracingLevelFilter::Debug => 3,
        TracingLevelFilter::Trace => 4,
    }
}

/// The rank of an optional `tracing`-flavoured threshold: an absent one
/// ranks the same as `Off`.
pub open spec fn tracing_opt_rank(filter: Option<TracingLevelFilter>) -> int {
    match filter {
        Option::None => -1,
        Option::Some(f) => tracing_rank(f),
    }
}

/// The severity a signed verbosity maps to: below 0 is "no output", 0 to 3
/// name the level exactly, and everything at 4 or above collapses to Trace.
pub open spec fn level_for(verbosity: int) -> Option<Level> {
    if verbosity < 0 {
        Option::None
    } else if verbosity == 0 {
        Option::Some(Level::Error)
    } else if verbosity == 1 {
        Option::Some(Level::Warn)
    } else if verbosity == 2 {
        Option::Some(Level::Info)
    } else if verbosity == 3 {
        Option::Some(Level::Debug)
    } else {
        Option::Some(Level::Trace)
    }
}

/// The `log`-flavoured threshold for an optional severity: `None` becomes
/// `Off`, a severity becomes the threshold of the same name.
pub open spec fn spec_filter_of_level(level: Option<Level>) -> LevelFilter {
    match level {
        Option::None => LevelFilter::Off,
        Option::Some(Level::Error) => LevelFilter::Error,
        Option::Some(Level::Warn) => LevelFilter::Warn,
        Option::Some(Level::Info) => LevelFilter::Info,
        Option::Some(Level::Debug) => LevelFilter::Debug,
        Option::Some(Level::Trace) => LevelFilter::Trace,
    }
}

/// The `log`-flavoured threshold a signed verbosity maps to.
pub open spec fn filter_for(verbosity: int) -> LevelFilter {
    spec_filter_of_level(level_for(verbosity))
}

/// The `tracing`-flavoured threshold a signed verbosity maps to.
pub open spec fn tracing_filter_for(verbosity: int) -> TracingLevelFilter {
    if verbosity < 0 {
        TracingLevelFilter::Off
    } else if verbosity == 0 {
        TracingLevelFilter::Error
    } else if verbosity == 1 {
        TracingLevelFilter::Warn
    } else if verbosity == 2 {
        TracingLevelFilter::Info
    } else if verbosity == 3 {
        TracingLevelFilter::Debug
    } else {
        TracingLevelFilter::Trace
    }
}

/// The rank of an optional `log`-flavoured severity, as an executable value.
pub fn level_value_log(level: Option<Level>) -> (r: i16)
    ensures
        r == opt_level_rank(level),
{
    match level {
        Option::None => -1,
        Option::Some(Level::Error) => 0,
        Option::Some(Level::Warn) => 1,
        Option::Some(Level::Info) => 2,
        Option::Some(Level::Debug) => 3,
        Option::Some(Level::Trace) => 4,
    }
}

/// The rank of a `tracing`-flavoured threshold, as an executable value.
pub fn level_value_tracing(filter: TracingLevelFilter) -> (r: i16)
    ensures
        r == tracing_rank(filter),
{
    match filter {
        TracingLevelFilter::Off => -1,
        TracingLevelFilter::Error => 0,
        TracingLevelFilter::Warn => 1,
        TracingLevelFilter::Info => 2,
        TracingLevelFilter::Debug => 3,
        TracingLevelFilter::Trace => 4,
    }
}

/// Map a signed verbosity to its `log`-flavoured severity.
pub fn level_enum_log(verbosity: i16) -> (r: Option<Level>)
    ensures
        r == level_for(verbosity as int),
{
    if verbosity < 0 {
        Option::None
    } else if verbosity == 0 {
        Option::Some(Level::Error)
    } else if verbosity == 1 {
        Option::Some(Level::Warn)
    } else if verbosity == 2 {
        Option::Some(Level::Info)
    } else if verbosity == 3 {
        Option::Some(Level::Debug)
    } else {
        Option::Some(Level::Trace)
    }
}

/// Map a signed verbosity to its `tracing`-flavoured threshold.
pub fn level_enum_tracing(verbosity: i16) -> (r: TracingLevelFilter)
    ensures
        r == tracing_filter_for(verbosity as int),
{
    if verbosity < 0 {
        TracingLevelFilter::Off
    } else if verbosity == 0 {
        TracingLevelFilter::Error
    } else if verbosity == 1 {
        TracingLevelFilter::Warn
    } else if verbosity == 2 {
        TracingLevelFilter::Info
    } else if verbosity == 3 {
        TracingLevelFilter::Debug
    } else {
        TracingLevelFilter::Trace
    }
}

impl Level {
    /// The `log`-flavoured threshold that shows this level and everything
    /// more severe.
    pub fn to_level_filter(self) -> (r: LevelFilter)
        ensures
            r == spec_filter_of_level(Option::Some(self)),
    {
        match self {
            Level::Error => LevelFilter::Error,
            Level::Warn => LevelFilter::Warn,
            Level::Info => LevelFilter::Info,
            Level::Debug => LevelFilter::Debug,
            Level::Trace => LevelFilter::Trace,
        }
    }
}

/// Law: the mapped severity is "no output" exactly when the signed verbosity
/// is negative.
pub proof fn lemma_no_output_iff_negative(verbosity: int)
    ensures
        level_for(verbosity) is None <==> verbosity < 0,
{
}

/// Law: signed verbosities 0, 1, 2 and 3 map to Error, Warn, Info and Debug
/// exactly, and everything at 4 or above maps to Trace.
pub proof fn lemma_level_for_values(verbosity: int)
    ensures
        verbosity == 0 ==> level_for(verbosity) == Option::Some(Level::Error),
        verbosity == 1 ==> level_for(verbosity) == Option::Some(Level::Warn),
        verbosity == 2 ==> level_for(verbosity) == Option::Some(Level::Info),
        verbosity == 3 ==> level_for(verbosity) == Option::Some(Level::Debug),
        verbosity >= 4 ==> level_for(verbosity) == Option::Some(Level::Trace),
{
}

/// Law: the clamp saturates; once the signed verbosity has reached 4, making
/// it larger never changes the mapped severity.
pub proof fn lemma_clamp_saturates(v1: int, v2: int)
    requires
        v1 >= 4,
        v2 >= 4,
    ensures
        level_for(v1) == level_for(v2),
        filter_for(v1) == filter_for(v2),
        tracing_filter_for(v1) == tracing_filter_for(v2),
{
}

/// Law: the threshold-flavoured mappings and the level-flavoured mapping
/// always agree on whether any output is enabled.
pub proof fn lemma_flavors_agree(verbosity: int)
    ensures
        (filter_for(verbosity) == LevelFilter::Off) <==> (level_for(verbosity) is None),
        (tracing_filter_for(verbosity) == TracingLevelFilter::Off) <==> (level_for(
            verbosity,
        ) is None),
        (tracing_filter_for(verbosity) == TracingLevelFilter::Off) <==> (filter_for(verbosity)
            == LevelFilter::Off),
{
}

} // verus!

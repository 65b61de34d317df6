//! The verbosity accumulator: two flag counts netted against a policy's
//! default severity.

use vstd::prelude::*;

use core::marker::PhantomData;

use crate::level::Level;
use crate::level::LevelFilter;
use crate::level::TracingLevelFilter;
use crate::level::level_enum_log;
use crate::level::level_enum_tracing;
use crate::level::level_value_log;
use crate::level::level_for;
use crate::level::filter_for;
use crate::level::opt_level_rank;
use crate::level::spec_filter_of_level;
use crate::level::tracing_filter_for;
use crate::policy::ErrorLevel;
use crate::policy::LogLevel;
use crate::text::decimal_int;
use crate::text::decimal_string;

verus! {

/// How many times the verbosity-increase and the verbosity-decrease flags
/// occurred, together with a level policy chosen at the type level.
///
/// Every derived value is a pure function of the two counts and the
/// policy's default severity: the signed verbosity is
/// `default rank - quiet + verbose`, and the mapped severities clamp that
/// integer onto the severity scale.
#[derive(Debug)]
pub struct Verbosity<L: LogLevel = ErrorLevel> {
    verbose: u8,
    quiet: u8,
    phantom: PhantomData<L>,
}

impl<L: LogLevel> Clone for Verbosity<L> {
    /// A clone carries the same two counts, so every derived value agrees.
    fn clone(&self) -> (r: Self)
        ensures
            r.spec_verbose() == self.spec_verbose(),
            r.spec_quiet() == self.spec_quiet(),
    {
        Verbosity { verbose: self.verbose, quiet: self.quiet, phantom: PhantomData }
    }
}

impl<L: LogLevel> Verbosity<L> {
    /// How many times the verbosity-increase flag occurred.
    pub closed spec fn spec_verbose(&self) -> u8 {
        self.verbose
    }

    /// How many times the verbosity-decrease flag occurred.
    pub closed spec fn spec_quiet(&self) -> u8 {
        self.quiet
    }

    /// The signed verbosity: the policy's default rank, lowered by the
    /// quiet count and raised by the verbose count, unclamped.
    pub open spec fn spec_verbosity(&self) -> int {
        opt_level_rank(L::spec_default()) - self.spec_quiet() + self.spec_verbose()
    }

    /// Create a verbosity from explicit counts.
    pub fn new(verbose: u8, quiet: u8) -> (r: Self)
        ensures
            r.spec_verbose() == verbose,
            r.spec_quiet() == quiet,
    {
        Verbosity { verbose, quiet, phantom: PhantomData }
    }

    /// The signed verbosity as an executable value; it always fits, since
    /// the default rank lies between -1 and 4 and each count is at most 255.
    pub fn verbosity(&self) -> (r: i16)
        ensures
            r == self.spec_verbosity(),
    {
        let d = level_value_log(L::default_log());
        d - (self.quiet as i16) + (self.verbose as i16)
    }

    /// The mapped severity, `log`-flavoured; `None` means all output is
    /// disabled.
    pub fn log_level(&self) -> (r: Option<Level>)
        ensures
            r == level_for(self.spec_verbosity()),
    {
        level_enum_log(self.verbosity())
    }

    /// The mapped severity threshold, `log`-flavoured; `Off` means all
    /// output is disabled.
    pub fn log_level_filter(&self) -> (r: LevelFilter)
        ensures
            r == filter_for(self.spec_verbosity()),
            r == spec_filter_of_level(level_for(self.spec_verbosity())),
    {
        match self.log_level() {
            Option::Some(level) => level.to_level_filter(),
            Option::None => LevelFilter::Off,
        }
    }

    /// The mapped severity, `tracing`-flavoured; `Off` means all output is
    /// disabled.
    pub fn tracing_level(&self) -> (r: TracingLevelFilter)
        ensures
            r == tracing_filter_for(self.spec_verbosity()),
    {
        level_enum_tracing(self.verbosity())
    }

    /// The mapped severity threshold, `tracing`-flavoured; in this flavour
    /// the threshold type doubles as the severity type.
    pub fn tracing_level_filter(&self) -> (r: TracingLevelFilter)
        ensures
            r == tracing_filter_for(self.spec_verbosity()),
    {
        level_enum_tracing(self.verbosity())
    }

    /// Whether the user requested complete silence: true exactly when the
    /// mapped severity is "no output", that is, when the signed verbosity
    /// is negative.
    pub fn is_silent(&self) -> (r: bool)
        ensures
            r == (self.spec_verbosity() < 0),
            r == (level_for(self.spec_verbosity()) is None),
    {
        match self.log_level() {
            Option::None => true,
            Option::Some(_) => false,
        }
    }

    /// The decimal rendering of the raw signed verbosity, unclamped.
    pub fn to_text(&self) -> (r: String)
        ensures
            r@ == decimal_int(self.spec_verbosity()),
    {
        decimal_string(self.verbosity())
    }
}

/// Law: under the default-Error policy, when at most one of the two flags
/// occurred (the conventional command-line surface makes them mutually
/// exclusive), the verbosity is silent exactly when the quiet flag occurred
/// at least once and the verbose flag not at all.
pub proof fn lemma_is_silent_error_default(v: Verbosity<ErrorLevel>)
    requires
        v.spec_verbose() == 0 || v.spec_quiet() == 0,
    ensures
        (v.spec_verbosity() < 0) <==> (v.spec_quiet() >= 1 && v.spec_verbose() == 0),
        (level_for(v.spec_verbosity()) is None) <==> (v.spec_quiet() >= 1 && v.spec_verbose()
            == 0),
{
}

} // verus!

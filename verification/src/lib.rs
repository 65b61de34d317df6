//! Turn a count-based command-line verbosity signal into a logging severity.
//!
//! A `Verbosity` value holds how many times the verbosity-increase flag and
//! the verbosity-decrease flag occurred. Netting the two counts against the
//! default severity of a `LogLevel` policy gives a signed verbosity, which
//! maps onto the severity scale
//! no output < Error < Warn < Info < Debug < Trace,
//! clamped at both ends. The mapped severity is offered in a `log`-style
//! flavour (`Level`, `LevelFilter`) and a `tracing`-style flavour
//! (`TracingLevelFilter`); the embedding program converts whichever it uses
//! into its logging backend's own types.

mod level;
mod policy;
mod text;
mod verbosity;

pub use level::Level;
pub use level::LevelFilter;
pub use level::TracingLevelFilter;
pub use level::level_enum_log;
pub use level::level_enum_tracing;
pub use level::level_value_log;
pub use level::level_value_tracing;
pub use level::level_rank;
pub use level::opt_level_rank;
pub use level::level_for;
pub use level::filter_for;
pub use level::spec_filter_of_level;
pub use level::tracing_filter_for;
pub use level::tracing_rank;
pub use level::tracing_opt_rank;
pub use level::lemma_no_output_iff_negative;
pub use level::lemma_level_for_values;
pub use level::lemma_clamp_saturates;
pub use level::lemma_flavors_agree;
pub use policy::LogLevel;
pub use policy::ErrorLevel;
pub use policy::WarnLevel;
pub use policy::InfoLevel;
pub use text::decimal_digit;
pub use text::decimal_nat;
pub use text::decimal_int;
pub use verbosity::Verbosity;
pub use verbosity::lemma_is_silent_error_default;

use verbosity_flag::ErrorLevel;
use verbosity_flag::InfoLevel;
use verbosity_flag::Level;
use verbosity_flag::LevelFilter;
use verbosity_flag::LogLevel;
use verbosity_flag::TracingLevelFilter;
use verbosity_flag::Verbosity;
use verbosity_flag::WarnLevel;
use verbosity_flag::level_enum_log;
use verbosity_flag::level_enum_tracing;
use verbosity_flag::level_value_log;
use verbosity_flag::level_value_tracing;

#[test]
fn scenario_default_counts() {
    let v: Verbosity = Verbosity::new(0, 0);
    assert_eq!(v.log_level(), Some(Level::Error));
    assert_eq!(v.log_level_filter(), LevelFilter::Error);
    assert_eq!(v.tracing_level(), TracingLevelFilter::Error);
    assert_eq!(v.tracing_level_filter(), TracingLevelFilter::Error);
    assert!(!v.is_silent());
}

#[test]
fn scenario_one_verbose() {
    let v: Verbosity = Verbosity::new(1, 0);
    assert_eq!(v.log_level(), Some(Level::Warn));
}

#[test]
fn scenario_one_quiet() {
    let v: Verbosity = Verbosity::new(0, 1);
    assert_eq!(v.log_level(), None);
    assert!(v.is_silent());
}

#[test]
fn scenario_four_verbose() {
    let v: Verbosity = Verbosity::new(4, 0);
    assert_eq!(v.log_level(), Some(Level::Trace));
}

#[test]
fn scenario_saturated() {
    let a: Verbosity = Verbosity::new(4, 0);
    let b: Verbosity = Verbosity::new(10, 0);
    assert_eq!(b.log_level(), Some(Level::Trace));
    assert_eq!(b.log_level(), a.log_level());
    assert_eq!(b.log_level_filter(), a.log_level_filter());
    assert_eq!(b.tracing_level_filter(), a.tracing_level_filter());
}

#[test]
fn scenario_info_policy_two_quiet() {
    let v: Verbosity<InfoLevel> = Verbosity::new(0, 2);
    assert_eq!(v.verbosity(), 0);
    assert_eq!(v.log_level(), Some(Level::Error));
    assert!(!v.is_silent());
}

#[test]
fn signed_verbosity_is_exact() {
    assert_eq!(Verbosity::<ErrorLevel>::new(0, 0).verbosity(), 0);
    assert_eq!(Verbosity::<ErrorLevel>::new(2, 0).verbosity(), 2);
    assert_eq!(Verbosity::<ErrorLevel>::new(0, 2).verbosity(), -2);
    assert_eq!(Verbosity::<WarnLevel>::new(0, 3).verbosity(), -2);
    assert_eq!(Verbosity::<InfoLevel>::new(5, 1).verbosity(), 6);
    assert_eq!(Verbosity::<ErrorLevel>::new(255, 0).verbosity(), 255);
    assert_eq!(Verbosity::<ErrorLevel>::new(0, 255).verbosity(), -255);
    assert_eq!(Verbosity::<InfoLevel>::new(255, 255).verbosity(), 2);
}

#[test]
fn no_output_iff_negative() {
    for verbose in 0u8..6 {
        for quiet in 0u8..6 {
            let v: Verbosity<WarnLevel> = Verbosity::new(verbose, quiet);
            assert_eq!(v.log_level().is_none(), v.verbosity() < 0);
            assert_eq!(v.is_silent(), v.verbosity() < 0);
        }
    }
}

#[test]
fn level_mapping_is_exact() {
    assert_eq!(Verbosity::<ErrorLevel>::new(0, 0).log_level(), Some(Level::Error));
    assert_eq!(Verbosity::<ErrorLevel>::new(1, 0).log_level(), Some(Level::Warn));
    assert_eq!(Verbosity::<ErrorLevel>::new(2, 0).log_level(), Some(Level::Info));
    assert_eq!(Verbosity::<ErrorLevel>::new(3, 0).log_level(), Some(Level::Debug));
    assert_eq!(Verbosity::<ErrorLevel>::new(4, 0).log_level(), Some(Level::Trace));
    assert_eq!(Verbosity::<ErrorLevel>::new(200, 0).log_level(), Some(Level::Trace));
}

#[test]
fn flavors_agree_on_enabled() {
    for verbose in 0u8..6 {
        for quiet in 0u8..6 {
            let v: Verbosity<ErrorLevel> = Verbosity::new(verbose, quiet);
            let level_off = v.log_level().is_none();
            let filter_off = v.log_level_filter() == LevelFilter::Off;
            let tracing_off = v.tracing_level_filter() == TracingLevelFilter::Off;
            assert_eq!(level_off, filter_off);
            assert_eq!(level_off, tracing_off);
        }
    }
}

#[test]
fn is_silent_for_error_default() {
    assert!(Verbosity::<ErrorLevel>::new(0, 1).is_silent());
    assert!(Verbosity::<ErrorLevel>::new(0, 2).is_silent());
    assert!(!Verbosity::<ErrorLevel>::new(0, 0).is_silent());
    assert!(!Verbosity::<ErrorLevel>::new(1, 0).is_silent());
    assert!(Verbosity::<WarnLevel>::new(0, 2).is_silent());
    assert!(!Verbosity::<InfoLevel>::new(0, 2).is_silent());
}

#[test]
fn text_is_decimal_signed_verbosity() {
    assert_eq!(Verbosity::<ErrorLevel>::new(2, 0).to_text(), "2");
    assert_eq!(Verbosity::<ErrorLevel>::new(0, 0).to_text(), "0");
    assert_eq!(Verbosity::<ErrorLevel>::new(0, 3).to_text(), "-3");
    assert_eq!(Verbosity::<ErrorLevel>::new(255, 0).to_text(), "255");
    assert_eq!(Verbosity::<ErrorLevel>::new(0, 255).to_text(), "-255");
    assert_eq!(Verbosity::<WarnLevel>::new(255, 0).to_text(), "256");
    assert_eq!(Verbosity::<InfoLevel>::new(0, 255).to_text(), "-253");
    assert_eq!(Verbosity::<InfoLevel>::new(10, 2).to_text(), "10");
}

#[test]
fn help_text_defaults() {
    assert_eq!(<ErrorLevel as LogLevel>::verbose_help(), Some("More output per occurrence"));
    assert_eq!(<ErrorLevel as LogLevel>::quiet_help(), Some("Less output per occurrence"));
    assert_eq!(<ErrorLevel as LogLevel>::verbose_long_help(), None);
    assert_eq!(<ErrorLevel as LogLevel>::quiet_long_help(), None);
    assert_eq!(<InfoLevel as LogLevel>::verbose_help(), Some("More output per occurrence"));
}

#[test]
fn builtin_policy_defaults() {
    assert_eq!(<ErrorLevel as LogLevel>::default_log(), Some(Level::Error));
    assert_eq!(<WarnLevel as LogLevel>::default_log(), Some(Level::Warn));
    assert_eq!(<InfoLevel as LogLevel>::default_log(), Some(Level::Info));
    assert_eq!(
        <ErrorLevel as LogLevel>::default_tracing(),
        Some(TracingLevelFilter::Error)
    );
    assert_eq!(
        <WarnLevel as LogLevel>::default_tracing(),
        Some(TracingLevelFilter::Warn)
    );
    assert_eq!(
        <InfoLevel as LogLevel>::default_tracing(),
        Some(TracingLevelFilter::Info)
    );
}

#[test]
fn level_to_filter() {
    assert_eq!(Level::Error.to_level_filter(), LevelFilter::Error);
    assert_eq!(Level::Warn.to_level_filter(), LevelFilter::Warn);
    assert_eq!(Level::Info.to_level_filter(), LevelFilter::Info);
    assert_eq!(Level::Debug.to_level_filter(), LevelFilter::Debug);
    assert_eq!(Level::Trace.to_level_filter(), LevelFilter::Trace);
}

#[test]
fn rank_functions() {
    assert_eq!(level_value_log(None), -1);
    assert_eq!(level_value_log(Some(Level::Error)), 0);
    assert_eq!(level_value_log(Some(Level::Trace)), 4);
    assert_eq!(level_value_tracing(TracingLevelFilter::Off), -1);
    assert_eq!(level_value_tracing(TracingLevelFilter::Debug), 3);
    assert_eq!(level_enum_log(-5), None);
    assert_eq!(level_enum_log(0), Some(Level::Error));
    assert_eq!(level_enum_log(7), Some(Level::Trace));
    assert_eq!(level_enum_tracing(-1), TracingLevelFilter::Off);
    assert_eq!(level_enum_tracing(2), TracingLevelFilter::Info);
    assert_eq!(level_enum_tracing(100), TracingLevelFilter::Trace);
}

#[test]
fn clone_keeps_counts() {
    let v: Verbosity<WarnLevel> = Verbosity::new(3, 1);
    let w = v.clone();
    assert_eq!(w.verbosity(), v.verbosity());
    assert_eq!(w.log_level(), v.log_level());
}

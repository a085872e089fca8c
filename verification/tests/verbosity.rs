use rustdoc_cli::verbosity::Verbosity;

#[test]
fn quiet_flag_selects_quiet() {
    assert_eq!(Verbosity::from_flags(true, false), Verbosity::Quiet);
}

#[test]
fn verbose_flag_selects_verbose() {
    assert_eq!(Verbosity::from_flags(false, true), Verbosity::Verbose);
}

#[test]
fn no_flag_selects_normal() {
    assert_eq!(Verbosity::from_flags(false, false), Verbosity::Normal);
}

#[test]
fn quiet_beats_verbose() {
    assert_eq!(Verbosity::from_flags(true, true), Verbosity::Quiet);
}

use sworkstyle::args::{Args, CliAction, LogLevel};

fn strings(args: &[&str]) -> Vec<String> {
    args.iter().map(|a| a.to_string()).collect()
}

#[test]
fn no_flags_runs_with_defaults() {
    match Args::from_cli(vec![]) {
        CliAction::Run(args) => {
            assert!(matches!(args.log_level, LogLevel::Warn));
            assert!(args.config_path.is_none());
            assert!(!args.deduplicate);
        }
        other => panic!("unexpected action: {other:?}"),
    }
}

#[test]
fn help_and_version_win_immediately() {
    assert!(matches!(Args::from_cli(strings(&["-h"])), CliAction::ShowHelp));
    assert!(matches!(Args::from_cli(strings(&["--help"])), CliAction::ShowHelp));
    assert!(matches!(Args::from_cli(strings(&["-v"])), CliAction::ShowVersion));
    assert!(matches!(
        Args::from_cli(strings(&["-d", "--version"])),
        CliAction::ShowVersion
    ));
}

#[test]
fn log_level_flag_sets_the_level() {
    for (name, expected) in [
        ("error", LogLevel::Error),
        ("warn", LogLevel::Warn),
        ("info", LogLevel::Info),
        ("debug", LogLevel::Debug),
        ("off", LogLevel::Off),
    ] {
        match Args::from_cli(strings(&["-l", name])) {
            CliAction::Run(args) => assert!(args.log_level == expected),
            other => panic!("unexpected action: {other:?}"),
        }
    }
}

#[test]
fn bad_log_level_fails_with_message() {
    match Args::from_cli(strings(&["--log-level", "loud"])) {
        CliAction::Fail(m) => assert_eq!(m, "Invalid logging option: loud"),
        other => panic!("unexpected action: {other:?}"),
    }
    match Args::from_cli(strings(&["-l"])) {
        CliAction::Fail(m) => assert_eq!(m, "No logging option given"),
        other => panic!("unexpected action: {other:?}"),
    }
}

#[test]
fn config_flag_takes_a_path() {
    match Args::from_cli(strings(&["-c", "/tmp/a.toml", "-d"])) {
        CliAction::Run(args) => {
            assert_eq!(args.config_path.as_deref(), Some("/tmp/a.toml"));
            assert!(args.deduplicate);
        }
        other => panic!("unexpected action: {other:?}"),
    }
    match Args::from_cli(strings(&["--config"])) {
        CliAction::Fail(m) => assert_eq!(m, "No path given"),
        other => panic!("unexpected action: {other:?}"),
    }
}

#[test]
fn unknown_flag_fails_with_message() {
    match Args::from_cli(strings(&["--frobnicate"])) {
        CliAction::Fail(m) => assert_eq!(m, "Did not recognize \"--frobnicate\" as an option"),
        other => panic!("unexpected action: {other:?}"),
    }
}

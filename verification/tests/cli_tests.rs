use givetray::cli::{cli_error_message, parse_cli_args, CliError, CliMode, CliRequest};

fn args(words: &[&str]) -> Vec<String> {
    words.iter().map(|w| w.to_string()).collect()
}

#[test]
fn profile_is_sanitized_when_read() {
    match parse_cli_args(&args(&["-c", "My Profile!"])) {
        CliRequest::Options(options) => {
            assert_eq!(options.profile, "My_Profile_");
            assert!(options.icon_source.is_none());
            assert!(options.log_file.is_none());
            assert!(matches!(options.mode, CliMode::Run));
        }
        _ => panic!("expected accepted options"),
    }
}

#[test]
fn help_wins_anywhere() {
    assert!(matches!(parse_cli_args(&args(&["--help"])), CliRequest::Help));
    assert!(matches!(
        parse_cli_args(&args(&["-c", "p", "-h"])),
        CliRequest::Help
    ));
    assert!(matches!(
        parse_cli_args(&args(&["--version", "--help"])),
        CliRequest::Help
    ));
}

#[test]
fn version_flag_answers_version() {
    assert!(matches!(
        parse_cli_args(&args(&["-V"])),
        CliRequest::Version
    ));
    assert!(matches!(
        parse_cli_args(&args(&["-c", "p", "--version"])),
        CliRequest::Version
    ));
}

#[test]
fn desktop_file_mode_collects_its_options() {
    match parse_cli_args(&args(&[
        "desktop-file",
        "-c",
        "prof",
        "--output-dir",
        "/tmp/out",
        "--autostart",
    ])) {
        CliRequest::Options(options) => {
            assert_eq!(options.profile, "prof");
            match options.mode {
                CliMode::DesktopFile { output_dir, autostart } => {
                    assert_eq!(output_dir.unwrap(), "/tmp/out");
                    assert!(autostart);
                }
                CliMode::Run => panic!("expected launcher-file mode"),
            }
        }
        _ => panic!("expected accepted options"),
    }
}

#[test]
fn icon_and_log_file_values_are_kept() {
    match parse_cli_args(&args(&[
        "-c",
        "p",
        "--icon",
        "/path/icon.png",
        "--log-file",
        "/tmp/x.log",
    ])) {
        CliRequest::Options(options) => {
            assert_eq!(options.icon_source.unwrap(), "/path/icon.png");
            assert_eq!(options.log_file.unwrap(), "/tmp/x.log");
        }
        _ => panic!("expected accepted options"),
    }
}

#[test]
fn output_dir_outside_desktop_file_mode_is_rejected() {
    match parse_cli_args(&args(&["--output-dir", "/tmp"])) {
        CliRequest::Rejected(error) => {
            assert!(matches!(error, CliError::OutputDirRequiresDesktopFile));
            assert_eq!(
                cli_error_message(&error),
                "--output-dir is only valid with desktop-file"
            );
        }
        _ => panic!("expected a rejection"),
    }
}

#[test]
fn autostart_outside_desktop_file_mode_is_rejected() {
    match parse_cli_args(&args(&["-c", "p", "--autostart"])) {
        CliRequest::Rejected(error) => {
            assert!(matches!(error, CliError::AutostartRequiresDesktopFile));
            assert_eq!(
                cli_error_message(&error),
                "--autostart is only valid with desktop-file"
            );
        }
        _ => panic!("expected a rejection"),
    }
}

#[test]
fn flag_without_value_is_rejected() {
    match parse_cli_args(&args(&["-c"])) {
        CliRequest::Rejected(error) => {
            assert_eq!(cli_error_message(&error), "missing value for --config");
        }
        _ => panic!("expected a rejection"),
    }
    match parse_cli_args(&args(&["-c", "p", "--icon"])) {
        CliRequest::Rejected(error) => {
            assert_eq!(cli_error_message(&error), "missing value for --icon");
        }
        _ => panic!("expected a rejection"),
    }
}

#[test]
fn unknown_argument_is_rejected_with_its_text() {
    match parse_cli_args(&args(&["--wat"])) {
        CliRequest::Rejected(error) => {
            assert_eq!(cli_error_message(&error), "unknown argument: --wat");
        }
        _ => panic!("expected a rejection"),
    }
}

#[test]
fn missing_profile_is_rejected() {
    match parse_cli_args(&args(&[])) {
        CliRequest::Rejected(error) => {
            assert!(matches!(error, CliError::MissingProfile));
            assert_eq!(
                cli_error_message(&error),
                "missing required -c/--config PROFILE argument"
            );
        }
        _ => panic!("expected a rejection"),
    }
}

//! Command-line argument parsing, on plain argument vectors. A help or
//! version flag anywhere wins outright; a leading `desktop-file` word selects
//! launcher-file mode; the remaining arguments are consumed left to right,
//! flags taking their value from the following argument. The profile name is
//! sanitized the moment it is read, so every later path derivation sees the
//! same identity.
use crate::sanitize::{sanitize_profile_name, sanitize_spec};
use crate::text::str_eq;
use vstd::prelude::*;
use vstd::string::StringExecFns;

verus! {

/// What the program is asked to do.
pub enum CliMode {
    /// Run the tray instance.
    Run,
    /// Write a launcher file and exit.
    DesktopFile { output_dir: Option<String>, autostart: bool },
}

/// The accepted options.
pub struct CliOptions {
    /// The sanitized profile identity.
    pub profile: String,
    pub icon_source: Option<String>,
    pub log_file: Option<String>,
    pub mode: CliMode,
}

/// Why the arguments were rejected.
pub enum CliError {
    /// The flag (its text carried here) came last, with no value after it.
    MissingValue(String),
    OutputDirRequiresDesktopFile,
    AutostartRequiresDesktopFile,
    UnknownArgument(String),
    MissingProfile,
}

/// The parser's answer.
pub enum CliRequest {
    Help,
    Version,
    Options(CliOptions),
    Rejected(CliError),
}

/// The mathematical shape of `CliMode`.
pub enum CliModeView {
    Run,
    DesktopFile { output_dir: Option<Seq<char>>, autostart: bool },
}

/// The mathematical shape of `CliOptions`.
pub struct CliOptionsView {
    pub profile: Seq<char>,
    pub icon_source: Option<Seq<char>>,
    pub log_file: Option<Seq<char>>,
    pub mode: CliModeView,
}

/// The mathematical shape of `CliError`.
pub enum CliErrorView {
    MissingValue(Seq<char>),
    OutputDirRequiresDesktopFile,
    AutostartRequiresDesktopFile,
    UnknownArgument(Seq<char>),
    MissingProfile,
}

/// The mathematical shape of `CliRequest`.
pub enum CliRequestView {
    Help,
    Version,
    Options(CliOptionsView),
    Rejected(CliErrorView),
}

impl View for CliMode {
    type V = CliModeView;

    open spec fn view(&self) -> CliModeView {
        match self {
            CliMode::Run => CliModeView::Run,
            CliMode::DesktopFile { output_dir, autostart } => CliModeView::DesktopFile {
                output_dir: output_dir.deep_view(),
                autostart: *autostart,
            },
        }
    }
}

impl View for CliOptions {
    type V = CliOptionsView;

    open spec fn view(&self) -> CliOptionsView {
        CliOptionsView {
            profile: self.profile@,
            icon_source: self.icon_source.deep_view(),
            log_file: self.log_file.deep_view(),
            mode: self.mode@,
        }
    }
}

impl View for CliError {
    type V = CliErrorView;

    open spec fn view(&self) -> CliErrorView {
        match self {
            CliError::MissingValue(flag) => CliErrorView::MissingValue(flag@),
            CliError::OutputDirRequiresDesktopFile => CliErrorView::OutputDirRequiresDesktopFile,
            CliError::AutostartRequiresDesktopFile => CliErrorView::AutostartRequiresDesktopFile,
            CliError::UnknownArgument(word) => CliErrorView::UnknownArgument(word@),
            CliError::MissingProfile => CliErrorView::MissingProfile,
        }
    }
}

impl View for CliRequest {
    type V = CliRequestView;

    open spec fn view(&self) -> CliRequestView {
        match self {
            CliRequest::Help => CliRequestView::Help,
            CliRequest::Version => CliRequestView::Version,
            CliRequest::Options(options) => CliRequestView::Options(options@),
            CliRequest::Rejected(error) => CliRequestView::Rejected(error@),
        }
    }
}

/// The parser's working state: what has been collected so far.
pub struct CliAccView {
    pub profile: Option<Seq<char>>,
    pub icon_source: Option<Seq<char>>,
    pub log_file: Option<Seq<char>>,
    pub mode: CliModeView,
}

/// One left-to-right pass over the arguments after the mode word.
pub open spec fn parse_args_spec(acc: CliAccView, args: Seq<Seq<char>>) -> Result<
    CliAccView,
    CliErrorView,
>
    decreases args.len(),
{
    if args.len() == 0 {
        Ok(acc)
    } else {
        let word = args[0];
        if word == "-c"@ || word == "--config"@ {
            if args.len() < 2 {
                Err(CliErrorView::MissingValue("--config"@))
            } else {
                parse_args_spec(
                    CliAccView { profile: Some(sanitize_spec(args[1])), ..acc },
                    args.skip(2),
                )
            }
        } else if word == "--icon"@ {
            if args.len() < 2 {
                Err(CliErrorView::MissingValue("--icon"@))
            } else {
                parse_args_spec(CliAccView { icon_source: Some(args[1]), ..acc }, args.skip(2))
            }
        } else if word == "--log-file"@ {
            if args.len() < 2 {
                Err(CliErrorView::MissingValue("--log-file"@))
            } else {
                parse_args_spec(CliAccView { log_file: Some(args[1]), ..acc }, args.skip(2))
            }
        } else if word == "--output-dir"@ {
            if args.len() < 2 {
                Err(CliErrorView::MissingValue("--output-dir"@))
            } else {
                match acc.mode {
                    CliModeView::DesktopFile { output_dir: _, autostart } => parse_args_spec(
                        CliAccView {
                            mode: CliModeView::DesktopFile {
                                output_dir: Some(args[1]),
                                autostart,
                            },
                            ..acc
                        },
                        args.skip(2),
                    ),
                    CliModeView::Run => Err(CliErrorView::OutputDirRequiresDesktopFile),
                }
            }
        } else if word == "--autostart"@ {
            match acc.mode {
                CliModeView::DesktopFile { output_dir, autostart: _ } => parse_args_spec(
                    CliAccView {
                        mode: CliModeView::DesktopFile { output_dir, autostart: true },
                        ..acc
                    },
                    args.skip(1),
                ),
                CliModeView::Run => Err(CliErrorView::AutostartRequiresDesktopFile),
            }
        } else {
            Err(CliErrorView::UnknownArgument(word))
        }
    }
}

/// Whether any argument asks for help.
pub open spec fn wants_help(args: Seq<Seq<char>>) -> bool {
    exists|i: int| 0 <= i < args.len() && (args[i] == "-h"@ || args[i] == "--help"@)
}

/// Whether any argument asks for the version.
pub open spec fn wants_version(args: Seq<Seq<char>>) -> bool {
    exists|i: int| 0 <= i < args.len() && (args[i] == "-V"@ || args[i] == "--version"@)
}

/// The whole parse: help and version win over everything; a leading
/// `desktop-file` selects launcher-file mode; then the flags are consumed in
/// order, and a profile must have been named.
pub open spec fn cli_parse_spec(args: Seq<Seq<char>>) -> CliRequestView {
    if wants_help(args) {
        CliRequestView::Help
    } else if wants_version(args) {
        CliRequestView::Version
    } else {
        let desktop = args.len() > 0 && args[0] == "desktop-file"@;
        let mode0 = if desktop {
            CliModeView::DesktopFile { output_dir: None, autostart: false }
        } else {
            CliModeView::Run
        };
        let rest = if desktop {
            args.skip(1)
        } else {
            args
        };
        let acc0 = CliAccView { profile: None, icon_source: None, log_file: None, mode: mode0 };
        match parse_args_spec(acc0, rest) {
            Err(error) => CliRequestView::Rejected(error),
            Ok(acc) => match acc.profile {
                None => CliRequestView::Rejected(CliErrorView::MissingProfile),
                Some(profile) => CliRequestView::Options(
                    CliOptionsView {
                        profile,
                        icon_source: acc.icon_source,
                        log_file: acc.log_file,
                        mode: acc.mode,
                    },
                ),
            },
        }
    }
}

/// Assembles the parser's working state from its executable locals.
pub open spec fn acc_of(
    profile: Option<String>,
    icon_source: Option<String>,
    log_file: Option<String>,
    is_desktop: bool,
    output_dir: Option<String>,
    autostart: bool,
) -> CliAccView {
    CliAccView {
        profile: profile.deep_view(),
        icon_source: icon_source.deep_view(),
        log_file: log_file.deep_view(),
        mode: if is_desktop {
            CliModeView::DesktopFile { output_dir: output_dir.deep_view(), autostart }
        } else {
            CliModeView::Run
        },
    }
}

/// Parses the program's arguments (the program name already removed).
pub fn parse_cli_args(args: &Vec<String>) -> (r: CliRequest)
    ensures
        r@ == cli_parse_spec(args.deep_view()),
{
    let ghost d = args.deep_view();
    let n = args.len();
    proof {
        assert(d.len() == n);
    }
    let mut help = false;
    let mut i: usize = 0;
    while i < n
        invariant
            0 <= i <= n,
            n == args@.len(),
            d == args.deep_view(),
            help == exists|j: int| 0 <= j < i && (d[j] == "-h"@ || d[j] == "--help"@),
        decreases n - i,
    {
        proof {
            assert(d[i as int] == args@[i as int]@);
        }
        if str_eq(args[i].as_str(), "-h") || str_eq(args[i].as_str(), "--help") {
            help = true;
        }
        i += 1;
    }
    if help {
        return CliRequest::Help;
    }
    let mut version = false;
    let mut i: usize = 0;
    while i < n
        invariant
            0 <= i <= n,
            n == args@.len(),
            d == args.deep_view(),
            version == exists|j: int| 0 <= j < i && (d[j] == "-V"@ || d[j] == "--version"@),
        decreases n - i,
    {
        proof {
            assert(d[i as int] == args@[i as int]@);
        }
        if str_eq(args[i].as_str(), "-V") || str_eq(args[i].as_str(), "--version") {
            version = true;
        }
        i += 1;
    }
    if version {
        return CliRequest::Version;
    }
    let mut idx: usize = 0;
    let mut is_desktop = false;
    if n > 0 {
        proof {
            assert(d[0] == args@[0]@);
        }
        if str_eq(args[0].as_str(), "desktop-file") {
            is_desktop = true;
            idx = 1;
        }
    }
    let mut profile: Option<String> = None;
    let mut icon_source: Option<String> = None;
    let mut log_file: Option<String> = None;
    let mut output_dir: Option<String> = None;
    let mut autostart = false;
    let ghost acc0 = acc_of(profile, icon_source, log_file, is_desktop, output_dir, autostart);
    let ghost rest = d.skip(idx as int);
    proof {
        if is_desktop {
            assert(rest =~= d.skip(1));
        } else {
            assert(rest =~= d);
        }
    }
    while idx < n
        invariant
            0 <= idx <= n,
            n == args@.len(),
            d == args.deep_view(),
            !wants_help(d),
            !wants_version(d),
            is_desktop == (d.len() > 0 && d[0] == "desktop-file"@),
            acc0 == (CliAccView {
                profile: None::<Seq<char>>,
                icon_source: None::<Seq<char>>,
                log_file: None::<Seq<char>>,
                mode: if is_desktop {
                    CliModeView::DesktopFile { output_dir: None, autostart: false }
                } else {
                    CliModeView::Run
                },
            }),
            rest == if is_desktop { d.skip(1) } else { d },
            parse_args_spec(
                acc_of(profile, icon_source, log_file, is_desktop, output_dir, autostart),
                d.skip(idx as int),
            ) == parse_args_spec(acc0, rest),
        decreases n - idx,
    {
        let ghost rem = d.skip(idx as int);
        let ghost acc_now = acc_of(
            profile,
            icon_source,
            log_file,
            is_desktop,
            output_dir,
            autostart,
        );
        proof {
            assert(rem.len() == n - idx);
            assert(rem[0] == d[idx as int]);
            assert(d[idx as int] == args@[idx as int]@);
            if idx + 1 < n {
                assert(rem[1] == d[idx + 1]);
                assert(d[idx + 1] == args@[idx + 1]@);
            }
        }
        if str_eq(args[idx].as_str(), "-c") || str_eq(args[idx].as_str(), "--config") {
            if idx + 1 >= n {
                return CliRequest::Rejected(CliError::MissingValue("--config".to_owned()));
            }
            profile = Some(sanitize_profile_name(args[idx + 1].as_str()));
            proof {
                assert(rem.skip(2) =~= d.skip(idx + 2));
            }
            idx += 2;
        } else if str_eq(args[idx].as_str(), "--icon") {
            if idx + 1 >= n {
                return CliRequest::Rejected(CliError::MissingValue("--icon".to_owned()));
            }
            icon_source = Some(args[idx + 1].clone());
            proof {
                assert(rem.skip(2) =~= d.skip(idx + 2));
            }
            idx += 2;
        } else if str_eq(args[idx].as_str(), "--log-file") {
            if idx + 1 >= n {
                return CliRequest::Rejected(CliError::MissingValue("--log-file".to_owned()));
            }
            log_file = Some(args[idx + 1].clone());
            proof {
                assert(rem.skip(2) =~= d.skip(idx + 2));
            }
            idx += 2;
        } else if str_eq(args[idx].as_str(), "--output-dir") {
            if idx + 1 >= n {
                return CliRequest::Rejected(CliError::MissingValue("--output-dir".to_owned()));
            }
            if !is_desktop {
                return CliRequest::Rejected(CliError::OutputDirRequiresDesktopFile);
            }
            output_dir = Some(args[idx + 1].clone());
            proof {
                assert(rem.skip(2) =~= d.skip(idx + 2));
            }
            idx += 2;
        } else if str_eq(args[idx].as_str(), "--autostart") {
            if !is_desktop {
                return CliRequest::Rejected(CliError::AutostartRequiresDesktopFile);
            }
            autostart = true;
            proof {
                assert(rem.skip(1) =~= d.skip(idx + 1));
            }
            idx += 1;
        } else {
            let word = args[idx].clone();
            return CliRequest::Rejected(CliError::UnknownArgument(word));
        }
        proof {
            assert(parse_args_spec(
                acc_of(profile, icon_source, log_file, is_desktop, output_dir, autostart),
                d.skip(idx as int),
            ) == parse_args_spec(acc_now, rem));
        }
    }
    proof {
        assert(d.skip(n as int) =~= Seq::<Seq<char>>::empty());
    }
    match profile {
        None => CliRequest::Rejected(CliError::MissingProfile),
        Some(profile_name) => CliRequest::Options(
            CliOptions {
                profile: profile_name,
                icon_source,
                log_file,
                mode: if is_desktop {
                    CliMode::DesktopFile { output_dir, autostart }
                } else {
                    CliMode::Run
                },
            },
        ),
    }
}

/// The single line a rejected argument vector surfaces.
pub fn cli_error_message(error: &CliError) -> (r: String)
    ensures
        match error {
            CliError::MissingValue(flag) => r@ == "missing value for "@ + flag@,
            CliError::OutputDirRequiresDesktopFile => r@
                == "--output-dir is only valid with desktop-file"@,
            CliError::AutostartRequiresDesktopFile => r@
                == "--autostart is only valid with desktop-file"@,
            CliError::UnknownArgument(word) => r@ == "unknown argument: "@ + word@,
            CliError::MissingProfile => r@ == "missing required -c/--config PROFILE argument"@,
        },
{
    match error {
        CliError::MissingValue(flag) => {
            let mut line: String = "missing value for ".to_owned();
            line.append(flag.as_str());
            line
        },
        CliError::OutputDirRequiresDesktopFile => "--output-dir is only valid with desktop-file"
            .to_owned(),
        CliError::AutostartRequiresDesktopFile => "--autostart is only valid with desktop-file"
            .to_owned(),
        CliError::UnknownArgument(word) => {
            let mut line: String = "unknown argument: ".to_owned();
            line.append(word.as_str());
            line
        },
        CliError::MissingProfile => "missing required -c/--config PROFILE argument".to_owned(),
    }
}

} // verus!

//! Command-line argument handling.
//!
//! Parsing the flag list is pure and lives here; reading the process
//! arguments, printing, and exiting are left to the binary around the
//! library, which acts on the returned [`CliAction`].

use vstd::prelude::*;

use crate::text::str_eq;

verus! {

/// The log levels the command line can ask for.
#[derive(Clone, Copy, PartialEq, Eq, Structural, Debug)]
pub enum LogLevel {
    Error,
    Warn,
    Info,
    Debug,
    Off,
}

/// The options a run was started with.
#[derive(Debug)]
pub struct Args {
    pub log_level: LogLevel,
    pub config_path: Option<String>,
    pub deduplicate: bool,
}

/// The mathematical content of [`Args`].
pub struct ArgsView {
    pub log_level: LogLevel,
    pub config_path: Option<Seq<char>>,
    pub deduplicate: bool,
}

impl View for Args {
    type V = ArgsView;

    open spec fn view(&self) -> ArgsView {
        ArgsView {
            log_level: self.log_level,
            config_path: match self.config_path {
                Some(p) => Some(p@),
                None => None,
            },
            deduplicate: self.deduplicate,
        }
    }
}

/// What the command line asks the process to do: show a text and
/// exit, fail with a message, or run with the parsed options.
#[derive(Debug)]
pub enum CliAction {
    ShowHelp,
    ShowVersion,
    Fail(String),
    Run(Args),
}

/// The mathematical content of [`CliAction`].
pub enum CliActionView {
    ShowHelp,
    ShowVersion,
    Fail(Seq<char>),
    Run(ArgsView),
}

impl View for CliAction {
    type V = CliActionView;

    open spec fn view(&self) -> CliActionView {
        match self {
            CliAction::ShowHelp => CliActionView::ShowHelp,
            CliAction::ShowVersion => CliActionView::ShowVersion,
            CliAction::Fail(m) => CliActionView::Fail(m@),
            CliAction::Run(a) => CliActionView::Run(a@),
        }
    }
}

/// The options before any flag is seen: warnings on, no explicit
/// config path, no deduplication.
pub open spec fn spec_args_default() -> ArgsView {
    ArgsView { log_level: LogLevel::Warn, config_path: None, deduplicate: false }
}

/// The log level a name denotes, if any.
pub open spec fn spec_level_of(s: Seq<char>) -> Option<LogLevel> {
    if s == "error"@ {
        Some(LogLevel::Error)
    } else if s == "warn"@ {
        Some(LogLevel::Warn)
    } else if s == "info"@ {
        Some(LogLevel::Info)
    } else if s == "debug"@ {
        Some(LogLevel::Debug)
    } else if s == "off"@ {
        Some(LogLevel::Off)
    } else {
        None
    }
}

/// What a flag list denotes, processed left to right over the options
/// accumulated so far: help and version requests win as soon as they
/// are seen, a bad flag or a bad flag argument fails with its exact
/// message, and a fully processed list runs with the options.
pub open spec fn spec_parse_args(args: Seq<Seq<char>>, acc: ArgsView) -> CliActionView
    decreases args.len(),
{
    if args.len() == 0 {
        CliActionView::Run(acc)
    } else {
        let a = args[0];
        if a == "-h"@ || a == "--help"@ {
            CliActionView::ShowHelp
        } else if a == "-v"@ || a == "--version"@ {
            CliActionView::ShowVersion
        } else if a == "-l"@ || a == "--log-level"@ {
            if args.len() >= 2 {
                match spec_level_of(args[1]) {
                    Some(l) => spec_parse_args(
                        args.skip(2),
                        ArgsView { log_level: l, ..acc },
                    ),
                    None => CliActionView::Fail("Invalid logging option: "@ + args[1]),
                }
            } else {
                CliActionView::Fail("No logging option given"@)
            }
        } else if a == "-c"@ || a == "--config"@ {
            if args.len() >= 2 {
                spec_parse_args(args.skip(2), ArgsView { config_path: Some(args[1]), ..acc })
            } else {
                CliActionView::Fail("No path given"@)
            }
        } else if a == "-d"@ || a == "--deduplicate"@ {
            spec_parse_args(args.drop_first(), ArgsView { deduplicate: true, ..acc })
        } else {
            CliActionView::Fail("Did not recognize \""@ + a + "\" as an option"@)
        }
    }
}

/// The log level a name denotes, if any.
fn level_of(s: &String) -> (r: Option<LogLevel>)
    ensures
        r == spec_level_of(s@),
{
    if str_eq(s.as_str(), "error") {
        Some(LogLevel::Error)
    } else if str_eq(s.as_str(), "warn") {
        Some(LogLevel::Warn)
    } else if str_eq(s.as_str(), "info") {
        Some(LogLevel::Info)
    } else if str_eq(s.as_str(), "debug") {
        Some(LogLevel::Debug)
    } else if str_eq(s.as_str(), "off") {
        Some(LogLevel::Off)
    } else {
        None
    }
}

impl Args {
    /// Parse the flag list given on the command line (without the
    /// program name), exactly as [`spec_parse_args`] says.
    #[verifier::loop_isolation(false)]
    pub fn from_cli(args: Vec<String>) -> (r: CliAction)
        ensures
            r@ == spec_parse_args(args.deep_view(), spec_args_default()),
    {
        let ghost views = args.deep_view();
        let mut acc = Args { log_level: LogLevel::Warn, config_path: None, deduplicate: false };
        let mut i: usize = 0;
        proof {
            assert(views.skip(0) =~= views);
        }
        while i < args.len()
            invariant
                i <= args.len(),
                views.len() == args.len(),
                spec_parse_args(views, spec_args_default()) == spec_parse_args(
                    views.skip(i as int),
                    acc@,
                ),
            decreases args.len() - i,
        {
            proof {
                assert(views.skip(i as int)[0] == views[i as int]);
                assert(views.skip(i as int).drop_first() =~= views.skip(i as int + 1));
            }
            let a = &args[i];
            if str_eq(a.as_str(), "-h") || str_eq(a.as_str(), "--help") {
                return CliAction::ShowHelp;
            } else if str_eq(a.as_str(), "-v") || str_eq(a.as_str(), "--version") {
                return CliAction::ShowVersion;
            } else if str_eq(a.as_str(), "-l") || str_eq(a.as_str(), "--log-level") {
                if i + 1 < args.len() {
                    proof {
                        assert(views.skip(i as int)[1] == views[i as int + 1]);
                        assert(views.skip(i as int).skip(2) =~= views.skip(i as int + 2));
                    }
                    let level = &args[i + 1];
                    match level_of(level) {
                        Some(l) => {
                            acc.log_level = l;
                            i = i + 2;
                        },
                        None => {
                            let mut m = String::from_str("Invalid logging option: ");
                            m.append(level.as_str());
                            return CliAction::Fail(m);
                        },
                    }
                } else {
                    return CliAction::Fail(String::from_str("No logging option given"));
                }
            } else if str_eq(a.as_str(), "-c") || str_eq(a.as_str(), "--config") {
                if i + 1 < args.len() {
                    proof {
                        assert(views.skip(i as int)[1] == views[i as int + 1]);
                        assert(views.skip(i as int).skip(2) =~= views.skip(i as int + 2));
                    }
                    acc.config_path = Some(args[i + 1].clone());
                    i = i + 2;
                } else {
                    return CliAction::Fail(String::from_str("No path given"));
                }
            } else if str_eq(a.as_str(), "-d") || str_eq(a.as_str(), "--deduplicate") {
                acc.deduplicate = true;
                i = i + 1;
            } else {
                let mut m = String::from_str("Did not recognize \"");
                m.append(a.as_str());
                m.append("\" as an option");
                return CliAction::Fail(m);
            }
        }
        CliAction::Run(acc)
    }
}

} // verus!

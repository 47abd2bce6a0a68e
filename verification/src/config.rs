//! Compiler configuration from command-line arguments.
//!
//! The pure argument parsing lives here; reading the configuration
//! file and detecting the host operating system are input edges that
//! the surrounding program performs, handing their results in as
//! plain values.

use vstd::prelude::*;
use vstd::string::StringExecFns;
use vstd::string::StrSliceExecFns;
use crate::ast::TargetPlatform;

verus! {

/// Why the command line was rejected.
#[derive(Debug, PartialEq)]
pub enum ConfigError {
    /// `--target` came last, with no platform after it.
    MissingTargetValue,
    /// The platform named after `--target` is not one of the three.
    UnknownTarget(String),
    /// `-I` came last, with no path after it.
    MissingIncludePath,
    /// A second source file was named.
    MultipleInputFiles,
    /// An argument matched no flag and no source-file suffix.
    UnknownArgument(String),
}

/// Mathematical model of a configuration.
pub struct ConfigModel {
    pub include_paths: Seq<Seq<char>>,
    pub input_file: Seq<char>,
    pub target_platform: TargetPlatform,
    pub show_help: bool,
}

/// Resolved compiler configuration.
#[derive(Debug)]
pub struct Config {
    pub include_paths: Vec<String>,
    pub input_file: String,
    pub target_platform: TargetPlatform,
    pub show_help: bool,
}

impl View for Config {
    type V = ConfigModel;

    open spec fn view(&self) -> ConfigModel {
        ConfigModel {
            include_paths: self.include_paths@.map(|j: int, s: String| s@),
            input_file: self.input_file@,
            target_platform: self.target_platform,
            show_help: self.show_help,
        }
    }
}

/// The settled configuration: an unspecified target falls back to
/// the host platform, and a missing source file forces the help
/// screen.
pub open spec fn spec_finalize(
    paths: Seq<Seq<char>>,
    input: Seq<char>,
    target: TargetPlatform,
    help: bool,
    host: TargetPlatform,
) -> ConfigModel {
    ConfigModel {
        include_paths: paths,
        input_file: input,
        target_platform: if target is Unknown {
            host
        } else {
            target
        },
        show_help: help || input.len() == 0,
    }
}

/// Walk of the arguments from index `i` on.  A help flag ends the
/// walk at once; `--target` consumes the next argument as a platform
/// name; `-I` adds a search path, joined or separate; a `.nim` name
/// is the one source file; anything else is rejected.
pub open spec fn spec_parse_args(
    args: Seq<String>,
    i: int,
    paths: Seq<Seq<char>>,
    input: Seq<char>,
    target: TargetPlatform,
    host: TargetPlatform,
) -> Result<ConfigModel, ConfigError>
    decreases args.len() - i,
{
    if i < 0 || i >= args.len() {
        Ok(spec_finalize(paths, input, target, false, host))
    } else {
        let a = args[i]@;
        if a == "-h"@ || a == "-help"@ || a == "--help"@ {
            Ok(spec_finalize(paths, input, target, true, host))
        } else if a == "--target"@ {
            if i + 1 >= args.len() {
                Err(ConfigError::MissingTargetValue)
            } else {
                let t = args[i + 1]@;
                if t == "windows"@ {
                    spec_parse_args(args, i + 2, paths, input, TargetPlatform::Windows, host)
                } else if t == "linux"@ {
                    spec_parse_args(args, i + 2, paths, input, TargetPlatform::Linux, host)
                } else if t == "macos"@ {
                    spec_parse_args(args, i + 2, paths, input, TargetPlatform::Macos, host)
                } else {
                    Err(ConfigError::UnknownTarget(args[i + 1]))
                }
            }
        } else if a.len() >= 2 && a[0] == '-' && a[1] == 'I' {
            if a.len() > 2 {
                spec_parse_args(
                    args,
                    i + 1,
                    paths.push(a.subrange(2, a.len() as int)),
                    input,
                    target,
                    host,
                )
            } else if i + 1 < args.len() {
                spec_parse_args(args, i + 2, paths.push(args[i + 1]@), input, target, host)
            } else {
                Err(ConfigError::MissingIncludePath)
            }
        } else if a.len() >= 4 && a.subrange(a.len() - 4, a.len() as int) == ".nim"@ {
            if input.len() == 0 {
                spec_parse_args(args, i + 1, paths, a, target, host)
            } else {
                Err(ConfigError::MultipleInputFiles)
            }
        } else {
            Err(ConfigError::UnknownArgument(args[i]))
        }
    }
}

/// View of a path list.
pub open spec fn paths_view(v: Seq<String>) -> Seq<Seq<char>> {
    v.map(|j: int, s: String| s@)
}

/// Parse of a whole command line: the working directory and its
/// `libs` subdirectory open the search path, followed by the paths
/// handed in from the configuration file, then the flags in order
/// (the first argument is the program's own name).
pub open spec fn spec_parse_config(
    args: Seq<String>,
    extra: Seq<Seq<char>>,
    host: TargetPlatform,
) -> Result<ConfigModel, ConfigError> {
    spec_parse_args(
        args,
        1,
        seq!["."@, "./libs"@] + extra,
        Seq::empty(),
        TargetPlatform::Unknown,
        host,
    )
}

/// Parses the command line against the search paths handed in from
/// the configuration file and the detected host platform.
#[verifier::spinoff_prover]
#[verifier::loop_isolation(false)]
#[verifier::rlimit(100)]
pub fn parse_config(args: Vec<String>, extra_paths: Vec<String>, host_os: TargetPlatform) -> (r:
    Result<Config, ConfigError>)
    ensures
        ({
            let sr = spec_parse_config(args@, paths_view(extra_paths@), host_os);
            match (r, sr) {
                (Ok(c), Ok(mo)) => c@ == mo,
                (Err(a), Err(b)) => a == b,
                _ => false,
            }
        }),
{
    let ghost extrav = paths_view(extra_paths@);
    let mut paths: Vec<String> = Vec::new();
    paths.push(".".to_owned());
    paths.push("./libs".to_owned());
    let mut j: usize = 0;
    while j < extra_paths.len()
        invariant
            0 <= j <= extra_paths@.len(),
            extrav == paths_view(extra_paths@),
            paths_view(paths@) == seq!["."@, "./libs"@] + extrav.take(j as int),
        decreases extra_paths@.len() - j,
    {
        let ghost before = paths_view(paths@);
        paths.push(extra_paths[j].clone());
        proof {
            assert(paths_view(paths@) =~= before.push(extrav[j as int]));
            assert(before.push(extrav[j as int]) =~= seq!["."@, "./libs"@] + extrav.take(
                j as int + 1,
            ));
        }
        j = j + 1;
    }
    proof {
        assert(extrav.take(extrav.len() as int) =~= extrav);
    }
    let mut input = String::new();
    let mut got_input = false;
    let mut target = TargetPlatform::Unknown;
    let mut i: usize = 1;
    while i < args.len()
        invariant
            1 <= i,
            got_input == (input@.len() > 0),
            spec_parse_config(args@, extrav, host_os) == spec_parse_args(
                args@,
                i as int,
                paths_view(paths@),
                input@,
                target,
                host_os,
            ),
        decreases args@.len() - i,
    {
        let is_help = args[i].eq(&("-h".to_owned())) || args[i].eq(&("-help".to_owned()))
            || args[i].eq(&("--help".to_owned()));
        if is_help {
            return Ok(
                Config {
                    include_paths: paths,
                    input_file: input,
                    target_platform: match target {
                        TargetPlatform::Unknown => host_os,
                        other => other,
                    },
                    show_help: true,
                },
            );
        }
        if args[i].eq(&("--target".to_owned())) {
            if i + 1 >= args.len() {
                return Err(ConfigError::MissingTargetValue);
            }
            if args[i + 1].eq(&("windows".to_owned())) {
                target = TargetPlatform::Windows;
            } else if args[i + 1].eq(&("linux".to_owned())) {
                target = TargetPlatform::Linux;
            } else if args[i + 1].eq(&("macos".to_owned())) {
                target = TargetPlatform::Macos;
            } else {
                return Err(ConfigError::UnknownTarget(args[i + 1].clone()));
            }
            i = i + 2;
            continue ;
        }
        let n = args[i].as_str().unicode_len();
        if n >= 2 && args[i].as_str().get_char(0) == '-' && args[i].as_str().get_char(1) == 'I' {
            if n > 2 {
                let p = args[i].as_str().substring_char(2, n).to_owned();
                let ghost before = paths_view(paths@);
                paths.push(p);
                proof {
                    assert(paths_view(paths@) =~= before.push(
                        args@[i as int]@.subrange(2, args@[i as int]@.len() as int),
                    ));
                }
                i = i + 1;
                continue ;
            }
            if i + 1 < args.len() {
                let ghost before = paths_view(paths@);
                paths.push(args[i + 1].clone());
                proof {
                    assert(paths_view(paths@) =~= before.push(args@[i as int + 1]@));
                }
                i = i + 2;
                continue ;
            }
            return Err(ConfigError::MissingIncludePath);
        }
        let is_source = n >= 4 && args[i].as_str().substring_char(n - 4, n).to_owned().eq(
            &(".nim".to_owned()),
        );
        if is_source {
            if got_input {
                return Err(ConfigError::MultipleInputFiles);
            }
            input = args[i].clone();
            got_input = true;
            proof {
                assert(input@.len() >= 4);
            }
            i = i + 1;
            continue ;
        }
        return Err(ConfigError::UnknownArgument(args[i].clone()));
    }
    Ok(
        Config {
            include_paths: paths,
            input_file: input,
            target_platform: match target {
                TargetPlatform::Unknown => host_os,
                other => other,
            },
            show_help: !got_input,
        },
    )
}

} // verus!

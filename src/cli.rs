use vstd::prelude::*;
use vstd::string::*;
use crate::text::{same_text, texts};

verus! {

/// The run's options.
#[derive(Debug, Clone)]
pub struct Args {
    pub config_file: String,
    pub dry_run: bool,
    pub working_directory: String,
}

/// The options as character sequences.
pub struct ArgsModel {
    pub config_file: Seq<char>,
    pub dry_run: bool,
    pub working_directory: Seq<char>,
}

impl View for Args {
    type V = ArgsModel;

    open spec fn view(&self) -> ArgsModel {
        ArgsModel {
            config_file: self.config_file@,
            dry_run: self.dry_run,
            working_directory: self.working_directory@,
        }
    }
}

/// What the command line asks for.
#[derive(Debug, Clone)]
pub enum CliCommand {
    /// Run with these options.
    Run(Args),
    /// Print the usage and stop.
    Help,
}

/// Why the command line was refused.
#[derive(Debug, Clone)]
pub enum CliError {
    /// The flag needs a value and none follows.
    MissingValue(String),
    /// The argument is no known flag.
    UnknownArgument(String),
}

/// What reading a command line gives, over character sequences.
pub enum CliOutcome {
    Run(ArgsModel),
    Help,
    MissingValue(Seq<char>),
    UnknownArgument(Seq<char>),
}

pub open spec fn outcome_of(r: Result<CliCommand, CliError>) -> CliOutcome {
    match r {
        Ok(CliCommand::Run(a)) => CliOutcome::Run(a@),
        Ok(CliCommand::Help) => CliOutcome::Help,
        Err(CliError::MissingValue(f)) => CliOutcome::MissingValue(f@),
        Err(CliError::UnknownArgument(a)) => CliOutcome::UnknownArgument(a@),
    }
}

/// The options when none is given.
pub open spec fn default_args() -> ArgsModel {
    ArgsModel {
        config_file: ".release-config.toml"@,
        dry_run: false,
        working_directory: "."@,
    }
}

/// Reads the arguments from position `i` on, with the options read so far.
pub open spec fn read_args(args: Seq<Seq<char>>, i: int, st: ArgsModel) -> CliOutcome
    decreases args.len() - i,
{
    if i < 0 || i >= args.len() {
        CliOutcome::Run(st)
    } else if args[i] == "--config-file"@ {
        if i + 1 < args.len() {
            read_args(args, i + 2, ArgsModel { config_file: args[i + 1], ..st })
        } else {
            CliOutcome::MissingValue("--config-file"@)
        }
    } else if args[i] == "--dry-run"@ {
        read_args(args, i + 1, ArgsModel { dry_run: true, ..st })
    } else if args[i] == "--working-directory"@ {
        if i + 1 < args.len() {
            read_args(args, i + 2, ArgsModel { working_directory: args[i + 1], ..st })
        } else {
            CliOutcome::MissingValue("--working-directory"@)
        }
    } else if args[i] == "--help"@ || args[i] == "-h"@ {
        CliOutcome::Help
    } else {
        CliOutcome::UnknownArgument(args[i])
    }
}

impl Args {
    /// Reads a command line whose first item is the program's name.
    pub fn parse(args: &Vec<String>) -> (r: Result<CliCommand, CliError>)
        ensures
            outcome_of(r) == read_args(texts(args@), 1, default_args()),
    {
        let ghost a = texts(args@);
        let mut config_file = String::from_str(".release-config.toml");
        let mut dry_run = false;
        let mut working_directory = String::from_str(".");
        let mut i: usize = 1;
        while i < args.len()
            invariant
                a == texts(args@),
                1 <= i,
                read_args(
                    a,
                    i as int,
                    ArgsModel {
                        config_file: config_file@,
                        dry_run,
                        working_directory: working_directory@,
                    },
                ) == read_args(a, 1, default_args()),
            decreases args.len() - i,
        {
            let arg = args[i].as_str();
            assert(a[i as int] == arg@);
            if same_text(arg, "--config-file") {
                if i + 1 < args.len() {
                    assert(a[i + 1] == args@[i + 1]@);
                    config_file = args[i + 1].clone();
                    i = i + 2;
                } else {
                    return Err(CliError::MissingValue(String::from_str("--config-file")));
                }
            } else if same_text(arg, "--dry-run") {
                dry_run = true;
                i = i + 1;
            } else if same_text(arg, "--working-directory") {
                if i + 1 < args.len() {
                    assert(a[i + 1] == args@[i + 1]@);
                    working_directory = args[i + 1].clone();
                    i = i + 2;
                } else {
                    return Err(CliError::MissingValue(String::from_str("--working-directory")));
                }
            } else if same_text(arg, "--help") || same_text(arg, "-h") {
                return Ok(CliCommand::Help);
            } else {
                return Err(CliError::UnknownArgument(String::from_str(arg)));
            }
        }
        Ok(CliCommand::Run(Args { config_file, dry_run, working_directory }))
    }

    /// The options as the automation environment gives them: each value when it
    /// is set, the default otherwise; a dry run only for the value `true`.
    pub fn from_env(
        config_file: Option<String>,
        dry_run: Option<String>,
        working_directory: Option<String>,
    ) -> (r: Args)
        ensures
            r.config_file@ == (match config_file {
                Some(s) => s@,
                None => ".release-config.toml"@,
            }),
            r.dry_run == (dry_run is Some && dry_run->0@ == "true"@),
            r.working_directory@ == (match working_directory {
                Some(s) => s@,
                None => "."@,
            }),
    {
        let config_file = match config_file {
            Some(s) => s,
            None => String::from_str(".release-config.toml"),
        };
        let dry_run = match &dry_run {
            Some(s) => same_text(s.as_str(), "true"),
            None => false,
        };
        let working_directory = match working_directory {
            Some(s) => s,
            None => String::from_str("."),
        };
        Args { config_file, dry_run, working_directory }
    }
}

} // verus!

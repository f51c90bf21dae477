//! The command line: a directory to scan, exclusion patterns for paths and
//! skip patterns for dependency names.

use vstd::prelude::*;
use clap::{Arg, ArgAction, Command};
use crate::patterns::texts;

verus! {

/// What the command line asked for.
#[derive(Debug)]
pub struct Args {
    /// The directory to scan.
    pub directory: String,
    /// Patterns for full paths that are left out of the scan.
    pub exclude: Option<Vec<String>>,
    /// Patterns for dependency names that are left out.
    pub skip: Option<Vec<String>>,
}

/// Mathematical value of [`Args`].
pub struct ArgsView {
    pub directory: Seq<char>,
    pub exclude: Option<Seq<Seq<char>>>,
    pub skip: Option<Seq<Seq<char>>>,
}

/// The texts of an optional list of strings.
pub open spec fn optional_texts(list: Option<Vec<String>>) -> Option<Seq<Seq<char>>> {
    match list {
        Some(v) => Some(texts(v@)),
        None => None,
    }
}

impl View for Args {
    type V = ArgsView;

    open spec fn view(&self) -> ArgsView {
        ArgsView {
            directory: self.directory@,
            exclude: optional_texts(self.exclude),
            skip: optional_texts(self.skip),
        }
    }
}

/// The command line gave no arguments to work with: it was refused, or it
/// asked for the help text or the version.
#[derive(Debug)]
pub struct UsageError {
    /// What is to be shown to the user, as clap words it.
    pub message: String,
    /// The command line was refused; `false` where help or the version was
    /// asked for.
    pub failure: bool,
}

/// What clap makes of a command line (the program's name first) for a
/// command with one required positional `directory` and the two list
/// options `-e`/`--exclude` and `-s`/`--skip`, each taking one or more
/// values that a space may separate; `None` where clap hands back an error,
/// which it also does for `--help` and `--version`.
pub uninterp spec fn command_line(argv: Seq<Seq<char>>) -> Option<ArgsView>;

/// Builds that command with clap and calls `Command::try_get_matches_from`
/// on the arguments, then takes the three values out of the matches.
/// Claimed: whether it succeeds, and with which values, depends on the
/// arguments alone. Nothing is claimed of the error, which carries clap's
/// own text and whether clap would write it to the error stream.
#[verifier::external_body]
fn clap_parse(argv: &Vec<String>) -> (r: Result<Args, UsageError>)
    ensures
        (r is Ok) == (command_line(texts(argv@)) is Some),
        r matches Ok(a) ==> command_line(texts(argv@)) == Some(a@),
{
    let list = |id: &'static str, c|
        Arg::new(id).short(c).long(id).num_args(1..).value_delimiter(' ').action(ArgAction::Append);
    let mut m = Command::new("deps-report").version("0.1.0").arg(
        Arg::new("directory").required(true),
    ).arg(list("exclude", 'e')).arg(list("skip", 's')).try_get_matches_from(argv).map_err(
        |e| UsageError { message: e.to_string(), failure: e.use_stderr() },
    )?;
    Ok(Args {
        directory: m.remove_one("directory").unwrap_or_default(),
        exclude: m.remove_many("exclude").map(|v| v.collect()),
        skip: m.remove_many("skip").map(|v| v.collect()),
    })
}

impl Args {
    /// Reads the command line, the program's name first.
    pub fn parse_args(argv: &Vec<String>) -> (r: Result<Args, UsageError>)
        ensures
            (r is Ok) == (command_line(texts(argv@)) is Some),
            r matches Ok(a) ==> command_line(texts(argv@)) == Some(a@),
    {
        clap_parse(argv)
    }
}

} // verus!

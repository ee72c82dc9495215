//! The command line: the version text and the command that the arguments
//! select.
use vstd::prelude::*;
use vstd::string::*;

use crate::text::{str_eq, trim, trimmed};

verus! {

/// The version of lrnscraper.
pub const VERSION: &'static str = "0.6.0";

/// The version text, `lrnscraper 0.6.0`.
pub open spec fn version_text() -> Seq<char> {
    seq!['l', 'r', 'n', 's', 'c', 'r', 'a', 'p', 'e', 'r', ' ', '0', '.', '6', '.', '0']
}

/// The version text that `-v` and `--version` print: `lrnscraper 0.6.0`.
pub fn lrnscraper_version() -> (r: String)
    ensures
        r@ == version_text(),
{
    let mut usage = String::from_str("lrnscraper ");
    usage.append(VERSION);
    proof {
        reveal_strlit("lrnscraper ");
        reveal_strlit("0.6.0");
        assert(usage@ =~= version_text());
    }
    usage
}

/// What the command line asks for.
#[derive(Clone, Copy, Debug, PartialEq, Eq, Structural)]
pub enum Command {
    /// Print the version and stop.
    Version,
    /// Write the configuration file.
    Init,
    /// Scrape the configured websites.
    Run,
    /// Empty the data folder.
    Clean,
    /// Print the usage.
    Help,
    /// Report an invalid command, print the usage and stop.
    Invalid,
}

/// `-v`
pub open spec fn short_version_flag() -> Seq<char> {
    seq!['-', 'v']
}

/// `--version`
pub open spec fn long_version_flag() -> Seq<char> {
    seq!['-', '-', 'v', 'e', 'r', 's', 'i', 'o', 'n']
}

/// `-h`
pub open spec fn short_help_flag() -> Seq<char> {
    seq!['-', 'h']
}

/// `--help`
pub open spec fn long_help_flag() -> Seq<char> {
    seq!['-', '-', 'h', 'e', 'l', 'p']
}

/// The command that the arguments `args` (the program's name first) select:
/// the version where the last argument, trimmed of white space, is `-v` or
/// `--version`; the usage where it is `-h` or `--help`; otherwise the command
/// that the first argument after the program's name names exactly; `Invalid`
/// where there is none or it names no command.
pub open spec fn command_of(args: Seq<Seq<char>>) -> Command {
    if args.len() > 0 && (trimmed(args.last()) == short_version_flag() || trimmed(args.last())
        == long_version_flag()) {
        Command::Version
    } else if args.len() > 0 && (trimmed(args.last()) == short_help_flag() || trimmed(
        args.last(),
    ) == long_help_flag()) {
        Command::Help
    } else if args.len() < 2 {
        Command::Invalid
    } else if args[1] == seq!['i', 'n', 'i', 't'] {
        Command::Init
    } else if args[1] == seq!['r', 'u', 'n'] {
        Command::Run
    } else if args[1] == seq!['c', 'l', 'e', 'a', 'n'] {
        Command::Clean
    } else if args[1] == seq!['h', 'e', 'l', 'p'] {
        Command::Help
    } else {
        Command::Invalid
    }
}

/// The command that the command-line arguments `args` select (see
/// `command_of`).
pub fn parse_command(args: &Vec<String>) -> (r: Command)
    ensures
        r == command_of(args.deep_view()),
        args@.len() >= 2 && !is_flag(args@.last()@) && args@[1]@ == seq!['r', 'u', 'n'] ==> r
            == Command::Run,
        args@.len() >= 2 && !is_flag(args@.last()@) && args@[1]@ == seq!['i', 'n', 'i', 't']
            ==> r == Command::Init,
        args@.len() >= 2 && !is_flag(args@.last()@) && args@[1]@ == seq!['c', 'l', 'e', 'a', 'n']
            ==> r == Command::Clean,
        args@.len() >= 2 && !is_flag(args@.last()@) && args@[1]@ == seq!['h', 'e', 'l', 'p']
            ==> r == Command::Help,
{
    proof {
        reveal_strlit("-v");
        reveal_strlit("--version");
        reveal_strlit("-h");
        reveal_strlit("--help");
        reveal_strlit("init");
        reveal_strlit("run");
        reveal_strlit("clean");
        reveal_strlit("help");
        assert("-v"@ =~= short_version_flag());
        assert("--version"@ =~= long_version_flag());
        assert("-h"@ =~= short_help_flag());
        assert("--help"@ =~= long_help_flag());
        assert("init"@ =~= seq!['i', 'n', 'i', 't']);
        assert("run"@ =~= seq!['r', 'u', 'n']);
        assert("clean"@ =~= seq!['c', 'l', 'e', 'a', 'n']);
        assert("help"@ =~= seq!['h', 'e', 'l', 'p']);
    }
    let ghost a = args.deep_view();
    proof {
        if args@.len() >= 2 && !is_flag(args@.last()@) {
            assert(a.last() == args@.last()@);
            assert(a[1] == args@[1]@);
            lemma_command_is_first_argument(a);
        }
    }
    let n = args.len();
    if n > 0 {
        let last = trim(args[n - 1].as_str());
        assert(a.last() == args@[n - 1]@);
        if str_eq(last.as_str(), "-v") || str_eq(last.as_str(), "--version") {
            return Command::Version;
        }
        if str_eq(last.as_str(), "-h") || str_eq(last.as_str(), "--help") {
            return Command::Help;
        }
    }
    if n < 2 {
        return Command::Invalid;
    }
    let first = args[1].as_str();
    assert(a[1] == first@);
    if str_eq(first, "init") {
        Command::Init
    } else if str_eq(first, "run") {
        Command::Run
    } else if str_eq(first, "clean") {
        Command::Clean
    } else if str_eq(first, "help") {
        Command::Help
    } else {
        Command::Invalid
    }
}

/// Whether `arg`, trimmed of white space, is one of the flags `-v`,
/// `--version`, `-h`, `--help`.
pub open spec fn is_flag(arg: Seq<char>) -> bool {
    let t = trimmed(arg);
    t == short_version_flag() || t == long_version_flag() || t == short_help_flag() || t
        == long_help_flag()
}

/// Without a flag as last argument, the command is the one that the first
/// argument after the program's name names, whatever follows it: `init`,
/// `run`, `clean` and `help` select their command, anything else is invalid.
pub proof fn lemma_command_is_first_argument(args: Seq<Seq<char>>)
    requires
        args.len() >= 2,
        !is_flag(args.last()),
    ensures
        args[1] == seq!['i', 'n', 'i', 't'] ==> command_of(args) == Command::Init,
        args[1] == seq!['r', 'u', 'n'] ==> command_of(args) == Command::Run,
        args[1] == seq!['c', 'l', 'e', 'a', 'n'] ==> command_of(args) == Command::Clean,
        args[1] == seq!['h', 'e', 'l', 'p'] ==> command_of(args) == Command::Help,
        args[1] != seq!['i', 'n', 'i', 't'] && args[1] != seq!['r', 'u', 'n'] && args[1]
            != seq!['c', 'l', 'e', 'a', 'n'] && args[1] != seq!['h', 'e', 'l', 'p']
            ==> command_of(args) == Command::Invalid,
{
}

/// Adding an argument that is not a flag after the command changes nothing:
/// the command line `prog cmd` selects the same command as `prog cmd x`.
pub proof fn lemma_extra_argument_is_ignored(args: Seq<Seq<char>>, extra: Seq<char>)
    requires
        args.len() >= 2,
        !is_flag(args.last()),
        !is_flag(extra),
    ensures
        command_of(args.push(extra)) == command_of(args),
{
    assert(args.push(extra)[1] == args[1]);
    assert(args.push(extra).last() == extra);
}

/// A flag as last argument decides, whatever comes before it: `-v` or
/// `--version` gives the version, `-h` or `--help` the usage.
pub proof fn lemma_last_flag_decides(args: Seq<Seq<char>>)
    requires
        args.len() >= 1,
    ensures
        trimmed(args.last()) == short_version_flag() ==> command_of(args) == Command::Version,
        trimmed(args.last()) == long_version_flag() ==> command_of(args) == Command::Version,
        trimmed(args.last()) == short_help_flag() ==> command_of(args) == Command::Help,
        trimmed(args.last()) == long_help_flag() ==> command_of(args) == Command::Help,
{
    assert(short_help_flag() != short_version_flag()) by {
        assert(short_help_flag()[1] != short_version_flag()[1]);
    }
    assert(short_help_flag() != long_version_flag()) by {
        assert(short_help_flag().len() != long_version_flag().len());
    }
    assert(long_help_flag() != short_version_flag()) by {
        assert(long_help_flag().len() != short_version_flag().len());
    }
    assert(long_help_flag() != long_version_flag()) by {
        assert(long_help_flag().len() != long_version_flag().len());
    }
}

} // verus!

use vstd::prelude::*;
use vstd::string::*;

use crate::text::{trim, trimmed};

verus! {

/// The usage text.
pub const USAGE: &'static str = "\naura\nAUR helper for Github mirror repo: https://github.com/archlinux/aur\n\n[USAGE]\n\taura -S visual-studio-code-bin\tTo install packages\n\taura -Sc\t\t\tTo clear cache folder";

/// What the command line asks for.
#[derive(Debug, PartialEq, Eq)]
pub enum Command {
    /// Fetch and build the named package; the name is already trimmed.
    Install(String),
    /// The install flag came without a package name.
    MissingName,
    /// Report the size of the cache and offer to remove it.
    CleanCache,
    /// Print the usage text.
    Help,
    /// Two arguments whose first is not the install flag; only a message is
    /// printed.
    Invalid,
    /// One argument that is none of the flags; only a message is printed,
    /// different from the one for `Invalid`.
    UnknownFlag,
    /// A number of arguments that is not understood; the message is followed
    /// by the usage text.
    InvalidWithUsage,
}

/// The install flag.
pub open spec fn install_flag() -> Seq<char> {
    "-S"@
}

/// One of the two spellings of the clear-cache flag.
pub open spec fn is_clean_flag(a: Seq<char>) -> bool {
    a == "-Sc"@ || a == "-Scc"@
}

/// One of the two spellings of the help flag.
pub open spec fn is_help_flag(a: Seq<char>) -> bool {
    a == "--help"@ || a == "-h"@
}

/// `c` is what the arguments `args`, those after the program name, ask for.
pub open spec fn parsed(args: Seq<Seq<char>>, c: Command) -> bool {
    match c {
        Command::Install(name) => args.len() == 2 && args[0] == install_flag() && name@
            == trimmed(args[1]),
        Command::MissingName => args.len() == 1 && args[0] == install_flag(),
        Command::CleanCache => args.len() == 1 && args[0] != install_flag() && is_clean_flag(
            args[0],
        ),
        Command::Help => args.len() == 1 && args[0] != install_flag() && !is_clean_flag(args[0])
            && is_help_flag(args[0]),
        Command::Invalid => args.len() == 2 && args[0] != install_flag(),
        Command::UnknownFlag => args.len() == 1 && args[0] != install_flag() && !is_clean_flag(
            args[0],
        ) && !is_help_flag(args[0]),
        Command::InvalidWithUsage => args.len() != 1 && args.len() != 2,
    }
}

/// Reads the arguments that follow the program name.
pub fn parse_args(args: &Vec<String>) -> (r: Command)
    ensures
        parsed(args.deep_view(), r),
{
    let ghost a = args.deep_view();
    let install = String::from_str("-S");
    if args.len() == 2 {
        assert(a[0] == args@[0]@ && a[1] == args@[1]@);
        if args[0] == install {
            Command::Install(trim(args[1].as_str()))
        } else {
            Command::Invalid
        }
    } else if args.len() == 1 {
        assert(a[0] == args@[0]@);
        let arg = &args[0];
        if *arg == install {
            Command::MissingName
        } else if *arg == String::from_str("-Scc") || *arg == String::from_str("-Sc") {
            Command::CleanCache
        } else if *arg == String::from_str("--help") || *arg == String::from_str("-h") {
            Command::Help
        } else {
            Command::UnknownFlag
        }
    } else {
        Command::InvalidWithUsage
    }
}

/// Every number of arguments other than one or two is refused, with the usage
/// text.
pub proof fn lemma_other_counts_refused(args: Seq<Seq<char>>, c: Command)
    requires
        args.len() != 1,
        args.len() != 2,
    ensures
        parsed(args, c) <==> c == Command::InvalidWithUsage,
{
}

} // verus!

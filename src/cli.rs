use vstd::prelude::*;
use crate::setters::Platform;

verus! {

/// What the command line asks for.
#[derive(Debug, Clone, Copy, PartialEq, Eq, Structural)]
pub enum CliAction {
    /// Run the interactive picker.
    RunTui,
    /// Apply a random image and stop.
    NoTui,
    PrintVersion,
    PrintHelp,
    /// An option that the program does not know.
    InvalidOption,
    /// More than one option.
    TooManyArguments,
}

/// What the option `opt` asks for.
pub open spec fn option_action(opt: Seq<char>) -> CliAction {
    if opt == "--no-tui"@ || opt == "-nt"@ {
        CliAction::NoTui
    } else if opt == "--version"@ || opt == "-v"@ {
        CliAction::PrintVersion
    } else if opt == "--help"@ || opt == "-h"@ {
        CliAction::PrintHelp
    } else {
        CliAction::InvalidOption
    }
}

/// What the arguments `args` ask for, the program's name first.
pub open spec fn cli_action(args: Seq<Seq<char>>) -> CliAction {
    if args.len() > 2 {
        CliAction::TooManyArguments
    } else if args.len() < 2 {
        CliAction::RunTui
    } else {
        option_action(args[1])
    }
}

/// The platform for a session type: "wayland" and "x11" are known, and
/// anything else, or no session type, means X11.
pub open spec fn platform_of(session: Option<Seq<char>>) -> Platform {
    if session == Some("wayland"@) {
        Platform::Wayland
    } else {
        Platform::X11
    }
}

/// The directory of the images under the home directory `home`.
pub open spec fn wallpapers_dir_of(home: Seq<char>) -> Seq<char> {
    home + "/Pictures/Wallpapers"@
}

/// Whether `a` and `b` hold the same characters.
pub fn same_text(a: &str, b: &str) -> (r: bool)
    ensures
        r == (a@ == b@),
{
    let n = a.unicode_len();
    if n != b.unicode_len() {
        return false;
    }
    let mut i: usize = 0;
    while i < n
        invariant
            n == a@.len(),
            n == b@.len(),
            i <= n,
            forall|k: int| 0 <= k < i ==> a@[k] == b@[k],
        decreases n - i,
    {
        if a.get_char(i) != b.get_char(i) {
            return false;
        }
        i = i + 1;
    }
    assert(a@ == b@);
    true
}

/// What the option `opt` asks for.
pub fn parse_option(opt: &str) -> (r: CliAction)
    ensures
        r == option_action(opt@),
{
    if same_text(opt, "--no-tui") || same_text(opt, "-nt") {
        CliAction::NoTui
    } else if same_text(opt, "--version") || same_text(opt, "-v") {
        CliAction::PrintVersion
    } else if same_text(opt, "--help") || same_text(opt, "-h") {
        CliAction::PrintHelp
    } else {
        CliAction::InvalidOption
    }
}

/// What the arguments `args` ask for, the program's name first.
pub fn parse_args(args: &Vec<String>) -> (r: CliAction)
    ensures
        r == cli_action(args@.map_values(|s: String| s@)),
{
    let ghost views = args@.map_values(|s: String| s@);
    if args.len() > 2 {
        CliAction::TooManyArguments
    } else if args.len() < 2 {
        CliAction::RunTui
    } else {
        assert(views[1] == args@[1]@);
        parse_option(args[1].as_str())
    }
}

/// The platform for the session type `session`, if one is set.
pub fn platform_for_session(session: Option<&str>) -> (r: Platform)
    ensures
        r == platform_of(
            match session {
                Some(s) => Some(s@),
                None => None,
            },
        ),
{
    match session {
        Some(s) => {
            if same_text(s, "wayland") {
                Platform::Wayland
            } else {
                Platform::X11
            }
        },
        None => Platform::X11,
    }
}

/// The directory of the images under the home directory `home`.
pub fn wallpapers_dir(home: &str) -> (r: String)
    ensures
        r@ == wallpapers_dir_of(home@),
{
    String::from_str(home).concat("/Pictures/Wallpapers")
}

} // verus!

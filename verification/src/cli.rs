//! Command-line arguments, parsed before anything touches the filesystem.
//!
//! An unrecognised argument cannot reach startup: parsing yields a command
//! first, and only a recognised command resolves a profile.

use crate::text::{append_text, owned, text_equal};
use vstd::prelude::*;
use vstd::string::*;

verus! {

broadcast use vstd::string::group_string_axioms;

/// The usage text, printed to a terminal.
pub const USAGE: &'static str = "\
Usage: orbok [OPTIONS]

Options:
      --portable   Keep all data under ./orbok-data/ in the current directory
      --check      Validate the backend without opening a window, then exit
  -V, --version    Print the version and exit
  -h, --help       Print this help and exit

Environment:
  ORBOK_DATA_DIR   Use this directory for the whole profile (not with --portable)
";

/// The text refusing `--portable` in the packaged (Microsoft Store) build.
pub const PORTABLE_UNAVAILABLE_WHEN_PACKAGED: &'static str =
    "orbok: portable mode is not available in the Microsoft Store version\n";

/// The text refusing a development build's default-profile resolution.
pub const DEFAULT_PROFILE_REFUSED_IN_DEBUG_BUILD: &'static str = "\
orbok: this is a development build; it will not open the default profile.
Set ORBOK_DATA_DIR to a scratch directory, or ORBOK_ALLOW_DEFAULT_PROFILE=1
to override.
";

/// What one invocation asks for.
#[derive(Debug)]
pub enum CliCommand {
    Gui { portable: bool },
    Check { portable: bool },
    Version,
    Help,
    /// The first argument that is not an option this build knows.
    Unknown(String),
}

/// The view of a [`CliCommand`].
pub enum CommandView {
    Gui { portable: bool },
    Check { portable: bool },
    Version,
    Help,
    Unknown(Seq<char>),
}

impl View for CliCommand {
    type V = CommandView;

    open spec fn view(&self) -> CommandView {
        match self {
            CliCommand::Gui { portable } => CommandView::Gui { portable: *portable },
            CliCommand::Check { portable } => CommandView::Check { portable: *portable },
            CliCommand::Version => CommandView::Version,
            CliCommand::Help => CommandView::Help,
            CliCommand::Unknown(s) => CommandView::Unknown(s@),
        }
    }
}

impl PartialEq for CliCommand {
    fn eq(&self, other: &Self) -> (r: bool) {
        match (self, other) {
            (CliCommand::Gui { portable: a }, CliCommand::Gui { portable: b }) => *a == *b,
            (CliCommand::Check { portable: a }, CliCommand::Check { portable: b }) => *a == *b,
            (CliCommand::Version, CliCommand::Version) => true,
            (CliCommand::Help, CliCommand::Help) => true,
            (CliCommand::Unknown(a), CliCommand::Unknown(b)) => a.eq(b),
            _ => false,
        }
    }
}

impl vstd::std_specs::cmp::PartialEqSpecImpl for CliCommand {
    open spec fn obeys_eq_spec() -> bool {
        true
    }

    open spec fn eq_spec(&self, other: &Self) -> bool {
        self@ == other@
    }
}

impl Eq for CliCommand {

}

/// The flags seen so far, or the first argument that is not an option.
pub enum ArgScan {
    Flags { portable: bool, check: bool, version: bool, help: bool },
    Unknown(Seq<char>),
}

/// Whether an argument is one of the options this build knows.
pub open spec fn is_known_option(arg: Seq<char>) -> bool {
    arg == "--portable"@ || arg == "--check"@ || arg == "--version"@ || arg == "-V"@ || arg
        == "--help"@ || arg == "-h"@
}

/// Reading the arguments after the program name left to right: each known
/// option sets its flag; the first unknown argument ends the reading.
pub open spec fn scan_args(args: Seq<Seq<char>>) -> ArgScan
    decreases args.len(),
{
    if args.len() == 0 {
        ArgScan::Flags { portable: false, check: false, version: false, help: false }
    } else {
        match scan_args(args.drop_last()) {
            ArgScan::Unknown(u) => ArgScan::Unknown(u),
            ArgScan::Flags { portable, check, version, help } => {
                let a = args.last();
                if a == "--portable"@ {
                    ArgScan::Flags { portable: true, check, version, help }
                } else if a == "--check"@ {
                    ArgScan::Flags { portable, check: true, version, help }
                } else if a == "--version"@ || a == "-V"@ {
                    ArgScan::Flags { portable, check, version: true, help }
                } else if a == "--help"@ || a == "-h"@ {
                    ArgScan::Flags { portable, check, version, help: true }
                } else {
                    ArgScan::Unknown(a)
                }
            },
        }
    }
}

/// The command for a full argument list, program name first: an unknown
/// argument wins; then help, then version, then check, then the window.
pub open spec fn parse_spec(args: Seq<Seq<char>>) -> CommandView {
    let rest = if args.len() > 0 {
        args.skip(1)
    } else {
        args
    };
    match scan_args(rest) {
        ArgScan::Unknown(u) => CommandView::Unknown(u),
        ArgScan::Flags { portable, check, version, help } => if help {
            CommandView::Help
        } else if version {
            CommandView::Version
        } else if check {
            CommandView::Check { portable }
        } else {
            CommandView::Gui { portable }
        },
    }
}

/// The views of a list of strings.
pub open spec fn texts_view(args: Seq<String>) -> Seq<Seq<char>> {
    args.map_values(|s: String| s@)
}

/// Parses the process arguments, including the program name at index 0.
pub fn parse_args(args: &[String]) -> (r: CliCommand)
    ensures
        r@ == parse_spec(texts_view(args@)),
{
    let n = args.len();
    let ghost all = texts_view(args@);
    let ghost rest = if all.len() > 0 {
        all.skip(1)
    } else {
        all
    };
    let mut portable = false;
    let mut check = false;
    let mut version = false;
    let mut help = false;
    let mut i: usize = 1;
    if n == 0 {
        assert(rest =~= Seq::<Seq<char>>::empty());
        return CliCommand::Gui { portable: false };
    }
    assert(rest.subrange(0, 0) =~= Seq::<Seq<char>>::empty());
    while i < n
        invariant
            n == args@.len(),
            n >= 1,
            1 <= i <= n,
            all == texts_view(args@),
            rest == all.skip(1),
            scan_args(rest.subrange(0, i - 1)) == (ArgScan::Flags {
                portable,
                check,
                version,
                help,
            }),
        decreases n - i,
    {
        let arg = args[i].as_str();
        let ghost pre = rest.subrange(0, i - 1);
        assert(rest.subrange(0, i as int).drop_last() =~= pre);
        assert(rest.subrange(0, i as int).last() == arg@);
        if text_equal(arg, "--portable") {
            portable = true;
        } else if text_equal(arg, "--check") {
            check = true;
        } else if text_equal(arg, "--version") || text_equal(arg, "-V") {
            version = true;
        } else if text_equal(arg, "--help") || text_equal(arg, "-h") {
            help = true;
        } else {
            let unknown = owned(arg);
            proof {
                lemma_scan_unknown_stays(rest, i as int);
            }
            return CliCommand::Unknown(unknown);
        }
        i = i + 1;
    }
    assert(rest.subrange(0, n - 1) =~= rest);
    if help {
        CliCommand::Help
    } else if version {
        CliCommand::Version
    } else if check {
        CliCommand::Check { portable }
    } else {
        CliCommand::Gui { portable }
    }
}

/// Once the reading stopped at an unknown argument, later arguments do not
/// change it.
proof fn lemma_scan_unknown_stays(args: Seq<Seq<char>>, i: int)
    requires
        1 <= i <= args.len(),
        scan_args(args.subrange(0, i)) is Unknown,
    ensures
        scan_args(args) == scan_args(args.subrange(0, i)),
    decreases args.len() - i,
{
    if i < args.len() {
        assert(args.subrange(0, i + 1).drop_last() =~= args.subrange(0, i));
        lemma_scan_unknown_stays(args, i + 1);
    } else {
        assert(args.subrange(0, i) =~= args);
    }
}

/// The text printed for an unrecognised argument: the argument named, then
/// the usage.
pub fn unknown_argument_message(arg: &str) -> (r: String)
    ensures
        r@ == "orbok: unrecognized argument '"@ + arg@ + "'\n\n"@ + USAGE@,
{
    let mut text = owned("orbok: unrecognized argument '");
    append_text(&mut text, arg);
    append_text(&mut text, "'\n\n");
    append_text(&mut text, USAGE);
    text
}

/// Whether this invocation prints before any window opens, and so needs the
/// parent console: every command but a plain window launch.
pub fn needs_console(command: &CliCommand) -> (r: bool)
    ensures
        r == !(command@ == (CommandView::Gui { portable: false })),
{
    !matches!(command, CliCommand::Gui { portable: false })
}

/// A packaged install directory is read-only, so `--portable` is refused
/// there, for the window and for `--check`. `Some` is the text to print.
pub fn portable_refusal(command: &CliCommand, packaged: bool) -> (r: Option<&'static str>)
    ensures
        r == (if packaged && (command@ == (CommandView::Gui { portable: true }) || command@ == (
        CommandView::Check { portable: true })) {
            Some(PORTABLE_UNAVAILABLE_WHEN_PACKAGED)
        } else {
            None
        }),
{
    match command {
        CliCommand::Gui { portable: true } | CliCommand::Check { portable: true } => {
            if packaged {
                Some(PORTABLE_UNAVAILABLE_WHEN_PACKAGED)
            } else {
                None
            }
        },
        _ => None,
    }
}

/// A development build does not open the default profile: a standard-mode
/// window or check is refused unless a data directory override is set or
/// the default profile is explicitly allowed. Commands that resolve no
/// profile are never refused.
pub fn default_profile_refusal(
    command: &CliCommand,
    is_debug_build: bool,
    data_dir_override_set: bool,
    allow_default_profile: bool,
) -> (r: Option<&'static str>)
    ensures
        r == (if is_debug_build && !data_dir_override_set && !allow_default_profile && (command@
            == (CommandView::Gui { portable: false }) || command@ == (CommandView::Check {
            portable: false,
        })) {
            Some(DEFAULT_PROFILE_REFUSED_IN_DEBUG_BUILD)
        } else {
            None
        }),
{
    let portable = match command {
        CliCommand::Gui { portable } => *portable,
        CliCommand::Check { portable } => *portable,
        CliCommand::Version | CliCommand::Help | CliCommand::Unknown(_) => return None,
    };
    if is_debug_build && !portable && !data_dir_override_set && !allow_default_profile {
        Some(DEFAULT_PROFILE_REFUSED_IN_DEBUG_BUILD)
    } else {
        None
    }
}

/// The flags of arguments that are all known options.
pub open spec fn flags_of(args: Seq<Seq<char>>) -> ArgScan {
    ArgScan::Flags {
        portable: args.contains("--portable"@),
        check: args.contains("--check"@),
        version: args.contains("--version"@) || args.contains("-V"@),
        help: args.contains("--help"@) || args.contains("-h"@),
    }
}

proof fn lemma_contains_push(s: Seq<Seq<char>>, x: Seq<char>, y: Seq<char>)
    ensures
        s.push(x).contains(y) == (s.contains(y) || x == y),
{
    if s.push(x).contains(y) {
        let j = choose|j: int| 0 <= j < s.push(x).len() && s.push(x)[j] == y;
        if j < s.len() {
            assert(s[j] == y);
        }
    }
    if s.contains(y) {
        let j = choose|j: int| 0 <= j < s.len() && s[j] == y;
        assert(s.push(x)[j] == y);
    }
    if x == y {
        assert(s.push(x)[s.len() as int] == y);
    }
}

proof fn lemma_scan_all_known(args: Seq<Seq<char>>)
    requires
        forall|j: int| 0 <= j < args.len() ==> is_known_option(#[trigger] args[j]),
    ensures
        scan_args(args) == flags_of(args),
    decreases args.len(),
{
    if args.len() > 0 {
        let init = args.drop_last();
        let last = args.last();
        assert forall|j: int| 0 <= j < init.len() implies is_known_option(#[trigger] init[j]) by {
            assert(init[j] == args[j]);
        }
        lemma_scan_all_known(init);
        assert(init.push(last) =~= args);
        reveal_strlit("--portable");
        reveal_strlit("--check");
        reveal_strlit("--version");
        reveal_strlit("-V");
        reveal_strlit("--help");
        reveal_strlit("-h");
        assert("--portable"@.len() == 10);
        assert("--check"@.len() == 7);
        assert("--version"@.len() == 9);
        assert("-V"@.len() == 2);
        assert("--help"@.len() == 6);
        assert("-h"@.len() == 2);
        assert("-V"@[1] == 'V');
        assert("-h"@[1] == 'h');
        lemma_contains_push(init, last, "--portable"@);
        lemma_contains_push(init, last, "--check"@);
        lemma_contains_push(init, last, "--version"@);
        lemma_contains_push(init, last, "-V"@);
        lemma_contains_push(init, last, "--help"@);
        lemma_contains_push(init, last, "-h"@);
        assert(is_known_option(args[args.len() - 1]));
        assert(args.last() == args[args.len() - 1]);
        assert(scan_args(init) == flags_of(init));
        if last == "--portable"@ {
            assert(last != "--check"@ && last != "--version"@ && last != "-V"@ && last != "--help"@
                && last != "-h"@);
        } else if last == "--check"@ {
            assert(last != "--version"@ && last != "-V"@ && last != "--help"@ && last != "-h"@);
        } else if last == "--version"@ || last == "-V"@ {
            assert(last != "--help"@ && last != "-h"@);
        }
    } else {
        assert(!args.contains("--portable"@));
        assert(!args.contains("--check"@));
        assert(!args.contains("--version"@));
        assert(!args.contains("-V"@));
        assert(!args.contains("--help"@));
        assert(!args.contains("-h"@));
        assert(scan_args(args) == ArgScan::Flags { portable: false, check: false, version: false, help: false });
        assert(flags_of(args) == ArgScan::Flags { portable: false, check: false, version: false, help: false });
    }
}

proof fn lemma_scan_known_prefix(args: Seq<Seq<char>>, m: int)
    requires
        0 <= m <= args.len(),
        forall|j: int| 0 <= j < m ==> is_known_option(#[trigger] args[j]),
    ensures
        scan_args(args.subrange(0, m)) is Flags,
{
    let t = args.subrange(0, m);
    assert forall|j: int| 0 <= j < t.len() implies is_known_option(#[trigger] t[j]) by {
        assert(t[j] == args[j]);
    }
    lemma_scan_all_known(t);
}

/// An unrecognised argument wins over everything else: the command names
/// the first one, whatever options surround it.
pub proof fn law_an_unknown_argument_wins(args: Seq<Seq<char>>, k: int)
    requires
        1 <= k < args.len(),
        !is_known_option(args[k]),
        forall|j: int| 1 <= j < k ==> is_known_option(#[trigger] args[j]),
    ensures
        parse_spec(args) == CommandView::Unknown(args[k]),
{
    let rest = args.skip(1);
    assert forall|j: int| 0 <= j < k - 1 implies is_known_option(#[trigger] rest[j]) by {
        assert(rest[j] == args[j + 1]);
    }
    lemma_scan_known_prefix(rest, k - 1);
    let t = rest.subrange(0, k);
    assert(t.drop_last() =~= rest.subrange(0, k - 1));
    assert(t.last() == args[k]);
    assert(!(args[k] == "--portable"@ || args[k] == "--check"@ || args[k] == "--version"@
        || args[k] == "-V"@ || args[k] == "--help"@ || args[k] == "-h"@));
    assert(scan_args(t) == ArgScan::Unknown(args[k]));
    lemma_scan_unknown_stays(rest, k);
}

/// With only known options, help beats version beats check, and
/// `--portable` goes with the window or the check.
pub proof fn law_help_beats_version_beats_check(args: Seq<Seq<char>>)
    requires
        args.len() > 0,
        forall|j: int| 1 <= j < args.len() ==> is_known_option(#[trigger] args[j]),
    ensures
        ({
            let rest = args.skip(1);
            let help = rest.contains("--help"@) || rest.contains("-h"@);
            let version = rest.contains("--version"@) || rest.contains("-V"@);
            let check = rest.contains("--check"@);
            let portable = rest.contains("--portable"@);
            parse_spec(args) == if help {
                CommandView::Help
            } else if version {
                CommandView::Version
            } else if check {
                CommandView::Check { portable }
            } else {
                CommandView::Gui { portable }
            }
        }),
{
    let rest = args.skip(1);
    assert forall|j: int| 0 <= j < rest.len() implies is_known_option(#[trigger] rest[j]) by {
        assert(rest[j] == args[j + 1]);
    }
    lemma_scan_all_known(rest);
}

} // verus!

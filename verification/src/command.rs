//! Mapping of the first command-line argument to the action the program takes.
//!
//! A [`Command`] is derived once from the argument; [`dispatch`] turns the
//! optional argument into a [`Plan`]: the diagnostic to print first (if any),
//! the endpoint URL to fetch (if any), and whether the help text follows.

use vstd::prelude::*;
use vstd::string::StrSliceExecFns;

verus! {

/// The directive selected by the first command-line argument.
#[derive(Clone, Copy, Debug, PartialEq, Eq, Structural)]
pub enum Command {
    GetOnline,
    GetOffline,
    GetCoins,
    ValidPairs,
    Help,
    Unknown,
}

/// Which command a token selects; anything but the five known strings is
/// `Unknown`.
pub open spec fn spec_command_of(t: Seq<char>) -> Command {
    if t == "get_online"@ {
        Command::GetOnline
    } else if t == "get_offline"@ {
        Command::GetOffline
    } else if t == "get_coins"@ {
        Command::GetCoins
    } else if t == "valid_pairs"@ {
        Command::ValidPairs
    } else if t == "help"@ {
        Command::Help
    } else {
        Command::Unknown
    }
}

/// The fixed endpoint URL of each fetch command; `None` for the commands
/// that perform no request.
pub open spec fn spec_command_url(c: Command) -> Option<Seq<char>> {
    match c {
        Command::GetOnline => Some("https://shapeshift.io/onlinecoins"@),
        Command::GetOffline => Some("https://shapeshift.io/offlinecoins"@),
        Command::GetCoins => Some("https://shapeshift.io/getcoins"@),
        Command::ValidPairs => Some("https://shapeshift.io/validpairs"@),
        Command::Help => None,
        Command::Unknown => None,
    }
}

/// The diagnostic line printed for an unrecognized token, newline included.
pub open spec fn spec_invalid_notice(t: Seq<char>) -> Seq<char> {
    "Invalid command: "@ + t + "\n"@
}

/// The mathematical model of a [`Plan`].
pub struct PlanSpec {
    pub notice: Option<Seq<char>>,
    pub command: Command,
    pub url: Option<Seq<char>>,
    pub show_help: bool,
}

/// Everything one invocation does besides the request itself, in output
/// order: first the diagnostic (if any), then the request to the URL (if
/// any), then the help text (if `show_help`).
pub struct Plan {
    pub notice: Option<String>,
    pub command: Command,
    pub url: Option<String>,
    pub show_help: bool,
}

/// The view of an optional owned string.
pub open spec fn view_str_opt(o: Option<String>) -> Option<Seq<char>> {
    match o {
        Some(s) => Some(s@),
        None => None,
    }
}

impl View for Plan {
    type V = PlanSpec;

    open spec fn view(&self) -> PlanSpec {
        PlanSpec {
            notice: view_str_opt(self.notice),
            command: self.command,
            url: view_str_opt(self.url),
            show_help: self.show_help,
        }
    }
}

/// The view of the optional first argument.
pub open spec fn arg_view(arg: Option<&str>) -> Option<Seq<char>> {
    match arg {
        Some(t) => Some(t@),
        None => None,
    }
}

/// The plan for one invocation: a missing argument shows help; a known
/// token selects its command; anything else earns the diagnostic and help.
pub open spec fn spec_dispatch(arg: Option<Seq<char>>) -> PlanSpec {
    match arg {
        None => PlanSpec { notice: None, command: Command::Help, url: None, show_help: true },
        Some(t) => PlanSpec {
            notice: if spec_command_of(t) is Unknown {
                Some(spec_invalid_notice(t))
            } else {
                None
            },
            command: spec_command_of(t),
            url: spec_command_url(spec_command_of(t)),
            show_help: spec_command_of(t) is Help || spec_command_of(t) is Unknown,
        },
    }
}

/// Character-by-character string equality.
fn str_eq(a: &str, b: &str) -> (r: bool)
    ensures
        r == (a@ == b@),
{
    let an = a.unicode_len();
    let bn = b.unicode_len();
    if an != bn {
        return false;
    }
    let mut i: usize = 0;
    while i < an
        invariant
            an == a@.len(),
            an == b@.len(),
            0 <= i <= an,
            forall|j: int| 0 <= j < i ==> a@[j] == b@[j],
        decreases an - i,
    {
        if a.get_char(i) != b.get_char(i) {
            return false;
        }
        i += 1;
    }
    proof {
        assert(a@ =~= b@);
    }
    true
}

impl Command {
    /// Parses the first argument's token into the command it selects.
    pub fn from_token(t: &str) -> (c: Command)
        ensures
            c == spec_command_of(t@),
    {
        if str_eq(t, "get_online") {
            Command::GetOnline
        } else if str_eq(t, "get_offline") {
            Command::GetOffline
        } else if str_eq(t, "get_coins") {
            Command::GetCoins
        } else if str_eq(t, "valid_pairs") {
            Command::ValidPairs
        } else if str_eq(t, "help") {
            Command::Help
        } else {
            Command::Unknown
        }
    }

    /// The fixed URL this command fetches, if it fetches at all.
    pub fn url(&self) -> (r: Option<&'static str>)
        ensures
            (match r {
                Some(u) => Some(u@),
                None => None::<Seq<char>>,
            }) == spec_command_url(*self),
    {
        match self {
            Command::GetOnline => Some("https://shapeshift.io/onlinecoins"),
            Command::GetOffline => Some("https://shapeshift.io/offlinecoins"),
            Command::GetCoins => Some("https://shapeshift.io/getcoins"),
            Command::ValidPairs => Some("https://shapeshift.io/validpairs"),
            Command::Help => None,
            Command::Unknown => None,
        }
    }
}

/// The diagnostic line for an unrecognized token.
fn invalid_notice(t: &str) -> (r: String)
    ensures
        r@ == spec_invalid_notice(t@),
{
    let mut s = "Invalid command: ".to_owned();
    s.append(t);
    s.append("\n");
    proof {
        assert(s@ =~= spec_invalid_notice(t@));
    }
    s
}

/// Turns the optional first command-line argument into the invocation's
/// plan. Exactly one action is selected: a fetch for the four fetch
/// commands, help for `help`, for an unrecognized token (after the
/// diagnostic) and for a missing argument.
pub fn dispatch(arg: Option<&str>) -> (p: Plan)
    ensures
        p@ == spec_dispatch(arg_view(arg)),
{
    match arg {
        None => Plan { notice: None, command: Command::Help, url: None, show_help: true },
        Some(t) => {
            let c = Command::from_token(t);
            let notice = match c {
                Command::Unknown => Some(invalid_notice(t)),
                _ => None,
            };
            let url = match c.url() {
                Some(u) => Some(u.to_owned()),
                None => None,
            };
            let show_help = match c {
                Command::Help | Command::Unknown => true,
                _ => false,
            };
            Plan { notice, command: c, url, show_help }
        },
    }
}

/// The five recognized tokens are pairwise distinct strings.
proof fn lemma_tokens_distinct()
    ensures
        "get_online"@ != "get_offline"@,
        "get_online"@ != "get_coins"@,
        "get_online"@ != "valid_pairs"@,
        "get_online"@ != "help"@,
        "get_offline"@ != "get_coins"@,
        "get_offline"@ != "valid_pairs"@,
        "get_offline"@ != "help"@,
        "get_coins"@ != "valid_pairs"@,
        "get_coins"@ != "help"@,
        "valid_pairs"@ != "help"@,
{
    reveal_strlit("get_online");
    reveal_strlit("get_offline");
    reveal_strlit("get_coins");
    reveal_strlit("valid_pairs");
    reveal_strlit("help");
    assert("get_online"@.len() == 10);
    assert("get_offline"@.len() == 11);
    assert("get_coins"@.len() == 9);
    assert("valid_pairs"@.len() == 11);
    assert("help"@.len() == 4);
    assert("get_offline"@[0] == 'g');
    assert("valid_pairs"@[0] == 'v');
}

/// Dispatch selects exactly one action for every argument: each of the five
/// recognized tokens selects its own command (a fetch of the fixed URL for
/// the four fetch commands, help for `help`), and any other token or a
/// missing argument selects help alone. A URL is fetched if and only if help
/// is not shown.
pub proof fn lemma_dispatch_selects_one(arg: Option<Seq<char>>)
    ensures
        (spec_dispatch(arg).url is Some) <==> !spec_dispatch(arg).show_help,
        arg == Some("get_online"@) ==> spec_dispatch(arg).command == Command::GetOnline
            && spec_dispatch(arg).url == Some("https://shapeshift.io/onlinecoins"@),
        arg == Some("get_offline"@) ==> spec_dispatch(arg).command == Command::GetOffline
            && spec_dispatch(arg).url == Some("https://shapeshift.io/offlinecoins"@),
        arg == Some("get_coins"@) ==> spec_dispatch(arg).command == Command::GetCoins
            && spec_dispatch(arg).url == Some("https://shapeshift.io/getcoins"@),
        arg == Some("valid_pairs"@) ==> spec_dispatch(arg).command == Command::ValidPairs
            && spec_dispatch(arg).url == Some("https://shapeshift.io/validpairs"@),
        arg == Some("help"@) ==> spec_dispatch(arg).command == Command::Help
            && spec_dispatch(arg).show_help
            && spec_dispatch(arg).notice is None,
        (match arg {
            Some(t) => t != "get_online"@ && t != "get_offline"@ && t != "get_coins"@
                && t != "valid_pairs"@ && t != "help"@,
            None => true,
        }) ==> spec_dispatch(arg).show_help && spec_dispatch(arg).url is None,
{
    lemma_tokens_distinct();
}

/// A missing argument and the token `help` yield the same plan, so the two
/// invocations produce byte-identical output.
pub proof fn lemma_no_argument_means_help()
    ensures
        spec_dispatch(None) == spec_dispatch(Some("help"@)),
{
    lemma_tokens_distinct();
}

} // verus!

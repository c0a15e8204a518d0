//! The static help text: a usage banner followed by the fixed five-row
//! command table, each row formatted as `<command>\t-\t<description>`.

use vstd::prelude::*;

verus! {

/// One row of the help table: a command name and its description.
pub struct HelpInfo {
    pub cmd: String,
    pub info: String,
}

impl View for HelpInfo {
    type V = (Seq<char>, Seq<char>);

    open spec fn view(&self) -> (Seq<char>, Seq<char>) {
        (self.cmd@, self.info@)
    }
}

impl HelpInfo {
    /// Pairs a command name with its description.
    pub fn new(c: String, i: String) -> (r: HelpInfo)
        ensures
            r.cmd == c,
            r.info == i,
    {
        HelpInfo { cmd: c, info: i }
    }
}

/// The five rows of the command table, in their fixed order.
pub open spec fn spec_help_entries() -> Seq<(Seq<char>, Seq<char>)> {
    seq![
        ("get_online"@, "get online coins"@),
        ("get_offline"@, "get offline coins"@),
        ("get_coins"@, "get coins information"@),
        ("valid_pairs"@, "get valid trading pairs"@),
        ("help"@, "show this help menu"@),
    ]
}

/// The banner printed before the command table.
pub open spec fn spec_help_header() -> Seq<char> {
    "Help\n\nUsage:\n\tshapeshift-rs <command>\n\nCommands:\n"@
}

/// One rendered row of the command table, newline included.
pub open spec fn spec_help_row(e: (Seq<char>, Seq<char>)) -> Seq<char> {
    "\t"@ + e.0 + "\t-\t"@ + e.1 + "\n"@
}

/// The first `n` rows of the table, rendered in order.
pub open spec fn spec_rows_up_to(es: Seq<(Seq<char>, Seq<char>)>, n: int) -> Seq<char>
    decreases n,
{
    if n <= 0 {
        Seq::empty()
    } else {
        spec_rows_up_to(es, n - 1) + spec_help_row(es[n - 1])
    }
}

/// The complete help output: the banner, then all five rows in order.
pub open spec fn spec_help_text() -> Seq<char> {
    spec_help_header() + spec_rows_up_to(spec_help_entries(), 5)
}

/// The five command-table entries, in their fixed order.
pub fn help_entries() -> (v: Vec<HelpInfo>)
    ensures
        v@.len() == 5,
        forall|i: int| 0 <= i < 5 ==> (#[trigger] v@[i])@ == spec_help_entries()[i],
{
    let mut v: Vec<HelpInfo> = Vec::new();
    v.push(HelpInfo::new("get_online".to_owned(), "get online coins".to_owned()));
    v.push(HelpInfo::new("get_offline".to_owned(), "get offline coins".to_owned()));
    v.push(HelpInfo::new("get_coins".to_owned(), "get coins information".to_owned()));
    v.push(HelpInfo::new("valid_pairs".to_owned(), "get valid trading pairs".to_owned()));
    v.push(HelpInfo::new("help".to_owned(), "show this help menu".to_owned()));
    proof {
        assert(v@[0]@ == spec_help_entries()[0]);
        assert(v@[1]@ == spec_help_entries()[1]);
        assert(v@[2]@ == spec_help_entries()[2]);
        assert(v@[3]@ == spec_help_entries()[3]);
        assert(v@[4]@ == spec_help_entries()[4]);
    }
    v
}

/// The complete help text, exactly as it is written to standard output.
pub fn help_text() -> (r: String)
    ensures
        r@ == spec_help_text(),
{
    let mut s = "Help\n\nUsage:\n\tshapeshift-rs <command>\n\nCommands:\n".to_owned();
    proof {
        assert(s@ =~= spec_help_header() + spec_rows_up_to(spec_help_entries(), 0));
    }
    let entries = help_entries();
    let mut i: usize = 0;
    while i < entries.len()
        invariant
            entries@.len() == 5,
            forall|j: int| 0 <= j < 5 ==> (#[trigger] entries@[j])@ == spec_help_entries()[j],
            0 <= i <= 5,
            s@ == spec_help_header() + spec_rows_up_to(spec_help_entries(), i as int),
        decreases 5 - i,
    {
        let e = &entries[i];
        s.append("\t");
        s.append(e.cmd.as_str());
        s.append("\t-\t");
        s.append(e.info.as_str());
        s.append("\n");
        proof {
            assert(s@ =~= spec_help_header() + spec_rows_up_to(spec_help_entries(), i as int + 1));
        }
        i += 1;
    }
    s
}

} // verus!

//! The macOS backend: a per-user launch agent plist, or the login-items
//! database driven through AppleScript.

use vstd::prelude::*;

use crate::AutoLaunch;
use crate::errors::Error;
use crate::text::contains_string;
use crate::text::remove_string;
use crate::text::seq_contains_name;
use crate::text::seq_without_name;
use crate::text::lemma_without_name_not_contains;

verus! {

/// What the macOS backend sees of the machine: the filesystem paths that
/// exist, the `LaunchAgents` directory with the one plist a Record owns
/// there, and the login-items database as a list of item names in order.
#[derive(Debug, Clone)]
pub struct MacState {
    /// The absolute paths that exist on the filesystem; `enable` refuses a
    /// Record whose `app_path` is not among them.
    pub existing_paths: Vec<String>,
    /// Whether `~/Library/LaunchAgents` exists.
    pub dir_exists: bool,
    /// The content of `<app_name>.plist` in that directory; `None` when
    /// the file is absent.
    pub agent_file: Option<String>,
    /// Models a failing filesystem for the launch-agent file operations.
    pub write_fault: bool,
    /// Models a failing script runner: while set, every AppleScript
    /// evaluation exits with the carried nonzero status instead of
    /// reaching System Events.
    pub script_fault: Option<i32>,
    /// The names of the user's login items, in order.
    pub login_items: Vec<String>,
}

/// Whether a path is absolute: nonempty and rooted at `/`.
pub open spec fn path_is_absolute(p: Seq<char>) -> bool {
    p.len() > 0 && p[0] == '/'
}

/// What `enable` demands of the Record against this machine: an absolute
/// `app_path` that exists.
pub open spec fn mac_input_ok(r: AutoLaunch, s: MacState) -> bool {
    path_is_absolute(r.app_path@) && seq_contains_name(s.existing_paths@, r.app_path@)
}

/// `<string>…</string>` for each item, with nothing between them.
pub open spec fn xml_string_items(items: Seq<Seq<char>>) -> Seq<char>
    decreases items.len(),
{
    if items.len() == 0 {
        Seq::empty()
    } else {
        xml_string_items(items.drop_last()) + "<string>"@ + items.last() + "</string>"@
    }
}

/// The `ProgramArguments` entries: the path first, then the arguments,
/// then `--hidden` exactly when `hidden` is set.
pub open spec fn program_arguments_spec(r: AutoLaunch) -> Seq<Seq<char>> {
    seq![r.app_path@] + r.args.deep_view() + if r.hidden {
        seq!["--hidden"@]
    } else {
        Seq::<Seq<char>>::empty()
    }
}

/// The optional `AssociatedBundleIdentifiers` block.
pub open spec fn bundle_section_spec(r: AutoLaunch) -> Seq<char> {
    if r.bundle_identifiers@.len() == 0 {
        Seq::empty()
    } else {
        "  <key>AssociatedBundleIdentifiers</key>\n  <array>"@ + xml_string_items(
            r.bundle_identifiers.deep_view(),
        ) + "</array>\n"@
    }
}

/// The full launch-agent plist the backend writes: the XML and property-
/// list preamble, the label, the program arguments, `RunAtLoad`, the
/// optional bundle identifiers, and the extra fragment verbatim inside the
/// dict.
pub open spec fn agent_plist_spec(r: AutoLaunch) -> Seq<char> {
    "<?xml version=\"1.0\" encoding=\"UTF-8\"?>\n<!DOCTYPE plist PUBLIC \"-//Apple//DTD PLIST 1.0//EN\" \"http://www.apple.com/DTDs/PropertyList-1.0.dtd\">\n<plist version=\"1.0\">\n<dict>\n  <key>Label</key>\n  <string>"@
        + r.app_name@ + "</string>\n  <key>ProgramArguments</key>\n  <array>"@ + xml_string_items(
        program_arguments_spec(r),
    ) + "</array>\n  <key>RunAtLoad</key>\n  <true/>\n"@ + bundle_section_spec(r)
        + r.agent_extra_config@ + "</dict>\n</plist>"@
}

/// Whether the registration is enabled: the plist exists, or the item name
/// is in the login-items database, depending on the sub-mode. A failing
/// script runner cannot list the login items, which reads as "not
/// enabled" rather than an error.
pub open spec fn mac_enabled(r: AutoLaunch, s: MacState) -> bool {
    if r.use_launch_agent {
        s.agent_file is Some
    } else {
        s.script_fault is None && seq_contains_name(s.login_items@, r.app_name@)
    }
}

/// How the state changes under a macOS `enable`. A bad path is refused
/// with nothing touched. The agent sub-mode writes the plist; the
/// AppleScript sub-mode appends a login item at the end unless one of
/// that name is already there, and a nonzero script exit is an os-error
/// carrying the exit status.
pub open spec fn mac_enable_post(
    r: AutoLaunch,
    s0: MacState,
    s1: MacState,
    res: Result<(), Error>,
) -> bool {
    if !mac_input_ok(r, s0) {
        (res matches Err(e) && e == Error::InvalidInput) && s1 == s0
    } else if r.use_launch_agent {
        if s0.write_fault {
            (res matches Err(e) && e == Error::IoError) && s1 == s0
        } else {
            &&& res is Ok
            &&& s1.dir_exists
            &&& s1.agent_file matches Some(c) && c@ == agent_plist_spec(r)
            &&& s1.existing_paths == s0.existing_paths
            &&& s1.write_fault == s0.write_fault
            &&& s1.script_fault == s0.script_fault
            &&& s1.login_items == s0.login_items
        }
    } else if s0.script_fault is Some {
        (res matches Err(e) && e == Error::OsError(s0.script_fault->0)) && s1 == s0
    } else {
        &&& res is Ok
        &&& s1.existing_paths == s0.existing_paths
        &&& s1.dir_exists == s0.dir_exists
        &&& s1.agent_file == s0.agent_file
        &&& s1.write_fault == s0.write_fault
        &&& s1.script_fault == s0.script_fault
        &&& if seq_contains_name(s0.login_items@, r.app_name@) {
            s1.login_items == s0.login_items
        } else {
            &&& s1.login_items@.len() == s0.login_items@.len() + 1
            &&& s1.login_items@.drop_last() == s0.login_items@
            &&& s1.login_items@.last()@ == r.app_name@
        }
    }
}

/// How the state changes under a macOS `disable`. The agent sub-mode
/// removes the plist, with an absent file already a success. The
/// AppleScript sub-mode deletes the named login items; a failing runner
/// reports its exit status, and System Events refuses a delete of an
/// item that is not there, which the runner reports as exit status 1.
pub open spec fn mac_disable_post(
    r: AutoLaunch,
    s0: MacState,
    s1: MacState,
    res: Result<(), Error>,
) -> bool {
    if r.use_launch_agent {
        if s0.agent_file is None {
            res is Ok && s1 == s0
        } else if s0.write_fault {
            (res matches Err(e) && e == Error::IoError) && s1 == s0
        } else {
            &&& res is Ok
            &&& s1.agent_file is None
            &&& s1.existing_paths == s0.existing_paths
            &&& s1.dir_exists == s0.dir_exists
            &&& s1.write_fault == s0.write_fault
            &&& s1.script_fault == s0.script_fault
            &&& s1.login_items == s0.login_items
        }
    } else {
        if s0.script_fault is Some {
            (res matches Err(e) && e == Error::OsError(s0.script_fault->0)) && s1 == s0
        } else if !seq_contains_name(s0.login_items@, r.app_name@) {
            (res matches Err(e) && e == Error::OsError(1)) && s1 == s0
        } else {
            &&& res is Ok
            &&& s1.login_items@ == seq_without_name(s0.login_items@, r.app_name@)
            &&& s1.existing_paths == s0.existing_paths
            &&& s1.dir_exists == s0.dir_exists
            &&& s1.agent_file == s0.agent_file
            &&& s1.write_fault == s0.write_fault
            &&& s1.script_fault == s0.script_fault
        }
    }
}

impl AutoLaunch {
    /// Checks the `enable` input: `app_path` absolute and existing.
    fn check_mac_input(&self, st: &MacState) -> (r: bool)
        ensures
            r == mac_input_ok(*self, *st),
    {
        let n: usize = self.app_path.as_str().unicode_len();
        if n == 0 {
            return false;
        }
        if self.app_path.as_str().get_char(0) != '/' {
            return false;
        }
        contains_string(&st.existing_paths, &self.app_path)
    }

    /// The `ProgramArguments` entries for this Record.
    fn program_arguments(&self) -> (pa: Vec<String>)
        ensures
            pa.deep_view() == program_arguments_spec(*self),
    {
        let mut pa: Vec<String> = Vec::new();
        pa.push(self.app_path.clone());
        let n: usize = self.args.len();
        let mut i: usize = 0;
        while i < n
            invariant
                i <= n,
                n == self.args@.len(),
                pa@.len() == 1 + i,
                pa@[0] == self.app_path,
                forall|j: int| 0 <= j < i ==> pa@[j + 1] == self.args@[j],
            decreases n - i,
        {
            pa.push(self.args[i].clone());
            i += 1;
        }
        if self.hidden {
            pa.push("--hidden".to_owned());
        }
        proof {
            assert(pa.deep_view() =~= program_arguments_spec(*self));
        }
        pa
    }

    /// Renders the launch-agent plist for this Record.
    pub fn agent_plist(&self) -> (r: String)
        ensures
            r@ == agent_plist_spec(*self),
    {
        let mut out = String::new();
        out.append(
            "<?xml version=\"1.0\" encoding=\"UTF-8\"?>\n<!DOCTYPE plist PUBLIC \"-//Apple//DTD PLIST 1.0//EN\" \"http://www.apple.com/DTDs/PropertyList-1.0.dtd\">\n<plist version=\"1.0\">\n<dict>\n  <key>Label</key>\n  <string>",
        );
        out.append(self.app_name.as_str());
        out.append("</string>\n  <key>ProgramArguments</key>\n  <array>");
        let pa = self.program_arguments();
        push_xml_strings(&mut out, &pa);
        out.append("</array>\n  <key>RunAtLoad</key>\n  <true/>\n");
        if self.bundle_identifiers.len() > 0 {
            out.append("  <key>AssociatedBundleIdentifiers</key>\n  <array>");
            push_xml_strings(&mut out, &self.bundle_identifiers);
            out.append("</array>\n");
        }
        out.append(self.agent_extra_config.as_str());
        out.append("</dict>\n</plist>");
        proof {
            assert(out@ =~= agent_plist_spec(*self));
        }
        out
    }

    /// Enables the registration: writes the plist, or tells System Events
    /// to make a login item at the end. A nonexistent or relative
    /// `app_path` is refused first.
    pub fn enable_mac(&self, st: &mut MacState) -> (res: Result<(), Error>)
        ensures
            mac_enable_post(*self, *old(st), *final(st), res),
    {
        if !self.check_mac_input(st) {
            return Err(Error::InvalidInput);
        }
        if self.use_launch_agent {
            if st.write_fault {
                return Err(Error::IoError);
            }
            st.dir_exists = true;
            st.agent_file = Some(self.agent_plist());
            Ok(())
        } else {
            match st.script_fault {
                Some(code) => {
                    return Err(Error::OsError(code));
                },
                None => {},
            }
            if !contains_string(&st.login_items, &self.app_name) {
                st.login_items.push(self.app_name.clone());
                proof {
                    assert(st.login_items@.drop_last() =~= old(st).login_items@);
                }
            }
            Ok(())
        }
    }

    /// Disables the registration: removes the plist, or tells System
    /// Events to delete the named login item.
    pub fn disable_mac(&self, st: &mut MacState) -> (res: Result<(), Error>)
        ensures
            mac_disable_post(*self, *old(st), *final(st), res),
    {
        if self.use_launch_agent {
            if st.agent_file.is_none() {
                return Ok(());
            }
            if st.write_fault {
                return Err(Error::IoError);
            }
            st.agent_file = None;
            Ok(())
        } else {
            match st.script_fault {
                Some(code) => {
                    return Err(Error::OsError(code));
                },
                None => {},
            }
            if !contains_string(&st.login_items, &self.app_name) {
                return Err(Error::OsError(1));
            }
            remove_string(&mut st.login_items, &self.app_name);
            Ok(())
        }
    }

    /// Whether the registration is enabled: the plist exists, or the item
    /// name is among the login items. A failing listing script reads as
    /// "not enabled" rather than an error.
    pub fn is_enabled_mac(&self, st: &MacState) -> (res: Result<bool, Error>)
        ensures
            res == Ok::<bool, Error>(mac_enabled(*self, *st)),
    {
        if self.use_launch_agent {
            Ok(st.agent_file.is_some())
        } else {
            match st.script_fault {
                Some(_) => Ok(false),
                None => Ok(contains_string(&st.login_items, &self.app_name)),
            }
        }
    }
}

/// Appends `<string>…</string>` for each item to `out`.
fn push_xml_strings(out: &mut String, items: &Vec<String>)
    ensures
        final(out)@ == old(out)@ + xml_string_items(items.deep_view()),
{
    let n: usize = items.len();
    let mut i: usize = 0;
    while i < n
        invariant
            i <= n,
            n == items@.len(),
            out@ == old(out)@ + xml_string_items(items.deep_view().take(i as int)),
        decreases n - i,
    {
        proof {
            assert(items.deep_view().take(i + 1).drop_last() =~= items.deep_view().take(i as int));
            assert(items.deep_view().take(i + 1).last() == items.deep_view()[i as int]);
        }
        out.append("<string>");
        out.append(items[i].as_str());
        out.append("</string>");
        i += 1;
    }
    proof {
        assert(items.deep_view().take(n as int) =~= items.deep_view());
    }
}

/// Whether `frag` stands at position `i` of `s`.
pub open spec fn fragment_at(s: Seq<char>, frag: Seq<char>, i: int) -> bool {
    0 <= i && i + frag.len() <= s.len() && s.subrange(i, i + frag.len()) == frag
}

/// Whether `frag` occurs contiguously somewhere in `s`.
pub open spec fn has_fragment(s: Seq<char>, frag: Seq<char>) -> bool {
    exists|i: int| fragment_at(s, frag, i)
}

proof fn lemma_fragment_between(a: Seq<char>, frag: Seq<char>, b: Seq<char>, s: Seq<char>)
    requires
        s == a + frag + b,
    ensures
        has_fragment(s, frag),
{
    assert(s.subrange(a.len() as int, a.len() + frag.len() as int) =~= frag);
    assert(fragment_at(s, frag, a.len() as int));
}

proof fn lemma_xml_first_decomp(items: Seq<Seq<char>>) -> (t: Seq<char>)
    requires
        items.len() > 0,
    ensures
        xml_string_items(items) == "<string>"@ + items[0] + "</string>"@ + t,
    decreases items.len(),
{
    if items.len() == 1 {
        let t = Seq::<char>::empty();
        assert(items.drop_last().len() == 0);
        assert(xml_string_items(items.drop_last()) == Seq::<char>::empty());
        assert(items.last() == items[0]);
        assert(xml_string_items(items) =~= "<string>"@ + items[0] + "</string>"@ + t);
        t
    } else {
        let t0 = lemma_xml_first_decomp(items.drop_last());
        let t = t0 + "<string>"@ + items.last() + "</string>"@;
        assert(items.drop_last()[0] == items[0]);
        assert(xml_string_items(items) =~= "<string>"@ + items[0] + "</string>"@ + t);
        t
    }
}

/// The generated plist declares `RunAtLoad` as `true`.
pub proof fn lemma_plist_declares_run_at_load(r: AutoLaunch)
    ensures
        has_fragment(agent_plist_spec(r), "<key>RunAtLoad</key>\n  <true/>"@),
{
    reveal_strlit("</array>\n  <key>RunAtLoad</key>\n  <true/>\n");
    reveal_strlit("</array>\n  ");
    reveal_strlit("<key>RunAtLoad</key>\n  <true/>");
    reveal_strlit("\n");
    let c1 = "</array>\n  "@;
    let f = "<key>RunAtLoad</key>\n  <true/>"@;
    let c2 = "\n"@;
    assert("</array>\n  <key>RunAtLoad</key>\n  <true/>\n"@ =~= c1 + f + c2);
    let p = agent_plist_spec(r);
    let a =
        "<?xml version=\"1.0\" encoding=\"UTF-8\"?>\n<!DOCTYPE plist PUBLIC \"-//Apple//DTD PLIST 1.0//EN\" \"http://www.apple.com/DTDs/PropertyList-1.0.dtd\">\n<plist version=\"1.0\">\n<dict>\n  <key>Label</key>\n  <string>"@
        + r.app_name@ + "</string>\n  <key>ProgramArguments</key>\n  <array>"@ + xml_string_items(
        program_arguments_spec(r),
    ) + c1;
    let b = c2 + bundle_section_spec(r) + r.agent_extra_config@ + "</dict>\n</plist>"@;
    assert(p =~= a + f + b);
    lemma_fragment_between(a, f, b, p);
}

/// The generated plist lists `app_path` as the first `ProgramArguments`
/// entry: the array opens with a string element holding exactly the path.
pub proof fn lemma_plist_first_program_argument(r: AutoLaunch)
    ensures
        program_arguments_spec(r)[0] == r.app_path@,
        has_fragment(agent_plist_spec(r), "<array>"@ + "<string>"@ + r.app_path@ + "</string>"@),
{
    reveal_strlit("</string>\n  <key>ProgramArguments</key>\n  <array>");
    reveal_strlit("</string>\n  <key>ProgramArguments</key>\n  ");
    reveal_strlit("<array>");
    let b1 = "</string>\n  <key>ProgramArguments</key>\n  "@;
    assert("</string>\n  <key>ProgramArguments</key>\n  <array>"@ =~= b1 + "<array>"@);
    let pa = program_arguments_spec(r);
    assert(pa[0] == r.app_path@);
    let t = lemma_xml_first_decomp(pa);
    let p = agent_plist_spec(r);
    let a =
        "<?xml version=\"1.0\" encoding=\"UTF-8\"?>\n<!DOCTYPE plist PUBLIC \"-//Apple//DTD PLIST 1.0//EN\" \"http://www.apple.com/DTDs/PropertyList-1.0.dtd\">\n<plist version=\"1.0\">\n<dict>\n  <key>Label</key>\n  <string>"@
        + r.app_name@ + b1;
    let f = "<array>"@ + "<string>"@ + r.app_path@ + "</string>"@;
    let b = t + "</array>\n  <key>RunAtLoad</key>\n  <true/>\n"@ + bundle_section_spec(r)
        + r.agent_extra_config@ + "</dict>\n</plist>"@;
    assert(p =~= a + f + b);
    lemma_fragment_between(a, f, b, p);
}

/// The statement wrapped for the script runner: everything the backend
/// asks of the system goes through System Events.
pub open spec fn tell_system_events(stmt: Seq<char>) -> Seq<char> {
    "tell application \"System Events\" to "@ + stmt
}

/// `true` or `false`, as AppleScript spells a boolean.
pub open spec fn bool_word(b: bool) -> Seq<char> {
    if b {
        "true"@
    } else {
        "false"@
    }
}

/// The statement that makes a login item for the Record.
pub open spec fn make_login_item_stmt(r: AutoLaunch) -> Seq<char> {
    "make login item at end with properties {name:\""@ + r.app_name@ + "\", path:\""@ + r.app_path@
        + "\", hidden:"@ + bool_word(r.hidden) + "}"@
}

/// The statement that deletes the Record's login item.
pub open spec fn delete_login_item_stmt(r: AutoLaunch) -> Seq<char> {
    "delete login item \""@ + r.app_name@ + "\""@
}

/// The statement that lists the names of every login item.
pub open spec fn list_login_items_stmt() -> Seq<char> {
    "get the name of every login item"@
}

impl AutoLaunch {
    /// The script a runner evaluates to enable the Record's login item.
    pub fn enable_login_item_script(&self) -> (r: String)
        ensures
            r@ == tell_system_events(make_login_item_stmt(*self)),
    {
        let mut out = String::new();
        out.append("tell application \"System Events\" to ");
        out.append("make login item at end with properties {name:\"");
        out.append(self.app_name.as_str());
        out.append("\", path:\"");
        out.append(self.app_path.as_str());
        out.append("\", hidden:");
        if self.hidden {
            out.append("true");
        } else {
            out.append("false");
        }
        out.append("}");
        proof {
            assert(out@ =~= tell_system_events(make_login_item_stmt(*self)));
        }
        out
    }

    /// The script a runner evaluates to delete the Record's login item.
    pub fn disable_login_item_script(&self) -> (r: String)
        ensures
            r@ == tell_system_events(delete_login_item_stmt(*self)),
    {
        let mut out = String::new();
        out.append("tell application \"System Events\" to ");
        out.append("delete login item \"");
        out.append(self.app_name.as_str());
        out.append("\"");
        proof {
            assert(out@ =~= tell_system_events(delete_login_item_stmt(*self)));
        }
        out
    }
}

/// The script a runner evaluates to list the login items.
pub fn list_login_items_script() -> (r: String)
    ensures
        r@ == tell_system_events(list_login_items_stmt()),
{
    let mut out = String::new();
    out.append("tell application \"System Events\" to ");
    out.append("get the name of every login item");
    proof {
        assert(out@ =~= tell_system_events(list_login_items_stmt()));
    }
    out
}

/// The whitespace that is trimmed from a listed login-item name.
pub open spec fn is_blank(c: char) -> bool {
    c == ' ' || c == '\t' || c == '\n' || c == '\r'
}

/// `s` with leading and trailing whitespace removed.
pub open spec fn trim_spec(s: Seq<char>) -> Seq<char>
    decreases s.len(),
{
    if s.len() == 0 {
        s
    } else if is_blank(s.first()) {
        trim_spec(s.drop_first())
    } else if is_blank(s.last()) {
        trim_spec(s.drop_last())
    } else {
        s
    }
}

/// `s` split at every comma, `cur` being the piece already read of the
/// first entry; the commas themselves are dropped.
pub open spec fn split_commas(s: Seq<char>, cur: Seq<char>) -> Seq<Seq<char>>
    decreases s.len(),
{
    if s.len() == 0 {
        seq![cur]
    } else if s.first() == ',' {
        seq![cur] + split_commas(s.drop_first(), Seq::empty())
    } else {
        split_commas(s.drop_first(), cur.push(s.first()))
    }
}

/// Whether some token trims to exactly `name`.
pub open spec fn some_token_trims_to(toks: Seq<Seq<char>>, name: Seq<char>) -> bool {
    exists|i: int| 0 <= i < toks.len() && trim_spec(toks[i]) == name
}

/// Whether the comma-separated listing `out` names `name`: split on
/// commas, trim each piece, and look for an exact match.
pub open spec fn listed_in_output(out: Seq<char>, name: Seq<char>) -> bool {
    some_token_trims_to(split_commas(out, Seq::empty()), name)
}

proof fn lemma_some_token_unfold(a: Seq<char>, rest: Seq<Seq<char>>, name: Seq<char>)
    ensures
        some_token_trims_to(seq![a] + rest, name) == (trim_spec(a) == name || some_token_trims_to(
            rest,
            name,
        )),
{
    let toks = seq![a] + rest;
    if trim_spec(a) == name {
        assert(toks[0] == a);
        assert(some_token_trims_to(toks, name));
    }
    if some_token_trims_to(rest, name) {
        let i = choose|i: int| 0 <= i < rest.len() && trim_spec(rest[i]) == name;
        assert(toks[i + 1] == rest[i]);
        assert(some_token_trims_to(toks, name));
    }
    if some_token_trims_to(toks, name) {
        let i = choose|i: int| 0 <= i < toks.len() && trim_spec(toks[i]) == name;
        if i == 0 {
            assert(toks[0] == a);
        } else {
            assert(toks[i] == rest[i - 1]);
            assert(some_token_trims_to(rest, name));
        }
    }
}

proof fn lemma_trim_all_blank(s: Seq<char>)
    requires
        forall|k: int| 0 <= k < s.len() ==> is_blank(s[k]),
    ensures
        trim_spec(s) =~= Seq::<char>::empty(),
    decreases s.len(),
{
    if s.len() > 0 {
        lemma_trim_all_blank(s.drop_first());
    }
}

proof fn lemma_trim_bounds(s: Seq<char>, lo: int, hi: int)
    requires
        0 <= lo <= hi < s.len(),
        !is_blank(s[lo]),
        !is_blank(s[hi]),
        forall|k: int| 0 <= k < lo ==> is_blank(s[k]),
        forall|k: int| hi < k < s.len() ==> is_blank(s[k]),
    ensures
        trim_spec(s) =~= s.subrange(lo, hi + 1),
    decreases s.len(),
{
    if lo > 0 {
        assert(is_blank(s.first()));
        let d = s.drop_first();
        assert(forall|k: int| 0 <= k < lo - 1 ==> is_blank(d[k]));
        assert(forall|k: int| hi - 1 < k < d.len() ==> is_blank(d[k]));
        lemma_trim_bounds(d, lo - 1, hi - 1);
        assert(d.subrange(lo - 1, hi) =~= s.subrange(lo, hi + 1));
    } else if hi < s.len() - 1 {
        assert(!is_blank(s.first()));
        assert(is_blank(s.last()));
        let d = s.drop_last();
        assert(forall|k: int| hi < k < d.len() ==> is_blank(d[k]));
        lemma_trim_bounds(d, lo, hi);
        assert(d.subrange(lo, hi + 1) =~= s.subrange(lo, hi + 1));
    } else {
        assert(trim_spec(s) == s);
        assert(s.subrange(0, s.len() as int) =~= s);
    }
}

/// Whether `c` is trimmed whitespace.
fn is_blank_char(c: char) -> (r: bool)
    ensures
        r == is_blank(c),
{
    c == ' ' || c == '\t' || c == '\n' || c == '\r'
}

/// Whether `token` trims to exactly `name`.
fn trimmed_equals(token: &Vec<char>, name: &str) -> (r: bool)
    ensures
        r == (trim_spec(token@) == name@),
{
    let n: usize = token.len();
    let mut lo: usize = 0;
    while lo < n && is_blank_char(token[lo])
        invariant
            lo <= n,
            n == token@.len(),
            forall|j: int| 0 <= j < lo ==> is_blank(token@[j]),
        decreases n - lo,
    {
        lo += 1;
    }
    if lo == n {
        proof {
            lemma_trim_all_blank(token@);
        }
        if name.unicode_len() == 0 {
            proof {
                assert(name@ =~= Seq::<char>::empty());
            }
            return true;
        }
        return false;
    }
    let mut hi: usize = n - 1;
    while hi > lo && is_blank_char(token[hi])
        invariant
            lo <= hi < n,
            n == token@.len(),
            forall|j: int| hi < j < n ==> is_blank(token@[j]),
        decreases hi,
    {
        hi -= 1;
    }
    proof {
        lemma_trim_bounds(token@, lo as int, hi as int);
    }
    let tn: usize = hi + 1 - lo;
    if tn != name.unicode_len() {
        return false;
    }
    let mut k: usize = 0;
    let mut all_eq = true;
    while k < tn
        invariant
            k <= tn,
            n == token@.len(),
            0 <= lo <= hi < n,
            tn == hi + 1 - lo,
            tn == name@.len(),
            all_eq ==> forall|j: int| 0 <= j < k ==> token@[lo + j] == name@[j],
            !all_eq ==> exists|j: int| 0 <= j < k && token@[lo + j] != name@[j],
        decreases tn - k,
    {
        if token[lo + k] != name.get_char(k) {
            all_eq = false;
        }
        k += 1;
    }
    proof {
        if all_eq {
            assert(token@.subrange(lo as int, hi + 1) =~= name@);
        } else {
            let j = choose|j: int| 0 <= j < tn && token@[lo + j] != name@[j];
            assert(token@.subrange(lo as int, hi + 1)[j] != name@[j]);
        }
    }
    all_eq
}

/// Reads the output of the login-items listing: splits it on commas,
/// trims each entry, and reports whether `name` is among them. Used by a
/// binding that drives the real script runner; any deviation from the
/// expected shape simply reads as "not present".
pub fn login_item_listed(output: &str, name: &str) -> (r: bool)
    ensures
        r == listed_in_output(output@, name@),
{
    let n: usize = output.unicode_len();
    let mut i: usize = 0;
    let mut cur: Vec<char> = Vec::new();
    let mut found = false;
    proof {
        assert(output@.subrange(0, n as int) =~= output@);
    }
    while i < n
        invariant
            i <= n,
            n == output@.len(),
            listed_in_output(output@, name@) == (found || some_token_trims_to(
                split_commas(output@.subrange(i as int, n as int), cur@),
                name@,
            )),
        decreases n - i,
    {
        let ghost rest = output@.subrange(i as int, n as int);
        let c = output.get_char(i);
        proof {
            assert(rest.first() == c);
            assert(rest.drop_first() =~= output@.subrange(i + 1, n as int));
        }
        if c == ',' {
            proof {
                lemma_some_token_unfold(
                    cur@,
                    split_commas(output@.subrange(i + 1, n as int), Seq::empty()),
                    name@,
                );
            }
            if trimmed_equals(&cur, name) {
                found = true;
            }
            cur = Vec::new();
        } else {
            proof {
                assert(split_commas(rest, cur@) == split_commas(
                    output@.subrange(i + 1, n as int),
                    cur@.push(c),
                ));
            }
            cur.push(c);
        }
        i += 1;
    }
    proof {
        assert(output@.subrange(n as int, n as int) =~= Seq::<char>::empty());
        assert(split_commas(Seq::<char>::empty(), cur@) == seq![cur@]);
        lemma_some_token_unfold(cur@, Seq::<Seq<char>>::empty(), name@);
        assert(seq![cur@] + Seq::<Seq<char>>::empty() =~= seq![cur@]);
    }
    if trimmed_equals(&cur, name) {
        found = true;
    }
    found
}

/// How System Events renders the login-item names: joined by comma-space.
pub open spec fn joined_names(items: Seq<Seq<char>>) -> Seq<char>
    decreases items.len(),
{
    if items.len() == 0 {
        Seq::empty()
    } else if items.len() == 1 {
        items[0]
    } else {
        items[0] + ", "@ + joined_names(items.drop_first())
    }
}

/// A name as the listing can carry it faithfully: nonempty, without
/// commas, and without leading or trailing whitespace.
pub open spec fn plain_name(s: Seq<char>) -> bool {
    &&& s.len() > 0
    &&& !is_blank(s.first())
    &&& !is_blank(s.last())
    &&& forall|k: int| 0 <= k < s.len() ==> s[k] != ','
}

proof fn lemma_trim_plain(s: Seq<char>)
    requires
        plain_name(s),
    ensures
        trim_spec(s) == s,
{
}

proof fn lemma_trim_spaced(s: Seq<char>)
    requires
        plain_name(s),
    ensures
        trim_spec(" "@ + s) == s,
{
    reveal_strlit(" ");
    let t = " "@ + s;
    assert(is_blank(t.first()));
    assert(t.drop_first() =~= s);
    lemma_trim_plain(s);
}

proof fn lemma_split_no_comma(s: Seq<char>, cur: Seq<char>)
    requires
        forall|k: int| 0 <= k < s.len() ==> s[k] != ',',
    ensures
        split_commas(s, cur) == seq![cur + s],
    decreases s.len(),
{
    if s.len() == 0 {
        assert(cur + s =~= cur);
    } else {
        lemma_split_no_comma(s.drop_first(), cur.push(s.first()));
        assert(cur.push(s.first()) + s.drop_first() =~= cur + s);
    }
}

proof fn lemma_split_skips_prefix(a: Seq<char>, b: Seq<char>, cur: Seq<char>)
    requires
        forall|k: int| 0 <= k < a.len() ==> a[k] != ',',
    ensures
        split_commas(a + b, cur) == split_commas(b, cur + a),
    decreases a.len(),
{
    if a.len() == 0 {
        assert(a + b =~= b);
        assert(cur + a =~= cur);
    } else {
        let s = a + b;
        assert(s.first() == a.first());
        assert(s.drop_first() =~= a.drop_first() + b);
        lemma_split_skips_prefix(a.drop_first(), b, cur.push(a.first()));
        assert(cur.push(a.first()) + a.drop_first() =~= cur + a);
    }
}

/// The tokens after the first entry: each carries the one space that
/// follows its comma.
spec fn spaced_tokens(items: Seq<Seq<char>>) -> Seq<Seq<char>>
    decreases items.len(),
{
    if items.len() == 0 {
        Seq::empty()
    } else {
        seq![" "@ + items[0]] + spaced_tokens(items.drop_first())
    }
}

proof fn lemma_split_joined(items: Seq<Seq<char>>, cur: Seq<char>)
    requires
        items.len() > 0,
        forall|i: int| 0 <= i < items.len() ==> plain_name(#[trigger] items[i]),
    ensures
        split_commas(joined_names(items), cur) == seq![cur + items[0]] + spaced_tokens(
            items.drop_first(),
        ),
    decreases items.len(),
{
    reveal_strlit(", ");
    reveal_strlit(" ");
    if items.len() == 1 {
        lemma_split_no_comma(items[0], cur);
        assert(items.drop_first().len() == 0);
        assert(seq![cur + items[0]] + spaced_tokens(items.drop_first()) =~= seq![cur + items[0]]);
    } else {
        let rest = items.drop_first();
        assert(forall|i: int| 0 <= i < rest.len() ==> plain_name(#[trigger] rest[i]));
        let j = joined_names(items);
        let tail = ", "@ + joined_names(rest);
        assert(j =~= items[0] + tail);
        lemma_split_skips_prefix(items[0], tail, cur);
        // the comma closes the first token; the space stays on the next
        assert(tail.first() == ',');
        assert(tail.drop_first() =~= " "@ + joined_names(rest));
        assert(split_commas(tail, cur + items[0]) == seq![cur + items[0]] + split_commas(
            " "@ + joined_names(rest),
            Seq::empty(),
        ));
        lemma_split_skips_prefix(" "@, joined_names(rest), Seq::empty());
        assert(Seq::<char>::empty() + " "@ =~= " "@);
        lemma_split_joined(rest, " "@);
        assert(seq![cur + items[0]] + (seq![" "@ + rest[0]] + spaced_tokens(rest.drop_first()))
            =~= seq![cur + items[0]] + spaced_tokens(rest));
    }
}

proof fn lemma_spaced_tokens_membership(items: Seq<Seq<char>>, name: Seq<char>)
    requires
        forall|i: int| 0 <= i < items.len() ==> plain_name(#[trigger] items[i]),
    ensures
        some_token_trims_to(spaced_tokens(items), name) == (exists|i: int|
            0 <= i < items.len() && items[i] == name),
    decreases items.len(),
{
    if items.len() == 0 {
        assert(!some_token_trims_to(spaced_tokens(items), name));
    } else {
        let rest = items.drop_first();
        lemma_some_token_unfold(" "@ + items[0], spaced_tokens(rest), name);
        lemma_trim_spaced(items[0]);
        lemma_spaced_tokens_membership(rest, name);
        if items[0] == name {
            assert(exists|i: int| 0 <= i < items.len() && items[i] == name);
        }
        if exists|i: int| 0 <= i < rest.len() && rest[i] == name {
            let i = choose|i: int| 0 <= i < rest.len() && rest[i] == name;
            assert(items[i + 1] == name);
        }
        if exists|i: int| 0 <= i < items.len() && items[i] == name {
            let i = choose|i: int| 0 <= i < items.len() && items[i] == name;
            if i > 0 {
                assert(rest[i - 1] == name);
            }
        }
    }
}

/// Round trip through the informal listing format: when System Events
/// joins the login-item names with comma-space, reading the listing back
/// reports exactly membership, for any plain names and any nonempty name
/// sought.
pub proof fn lemma_listing_round_trip(items: Seq<Seq<char>>, name: Seq<char>)
    requires
        forall|i: int| 0 <= i < items.len() ==> plain_name(#[trigger] items[i]),
        name.len() > 0,
    ensures
        listed_in_output(joined_names(items), name) == (exists|i: int|
            0 <= i < items.len() && items[i] == name),
{
    if items.len() == 0 {
        lemma_split_no_comma(joined_names(items), Seq::empty());
        lemma_some_token_unfold(
            Seq::<char>::empty() + Seq::<char>::empty(),
            Seq::<Seq<char>>::empty(),
            name,
        );
        assert(seq![Seq::<char>::empty() + Seq::<char>::empty()] + Seq::<Seq<char>>::empty()
            =~= seq![Seq::<char>::empty() + Seq::<char>::empty()]);
        assert(trim_spec(Seq::<char>::empty() + Seq::<char>::empty()).len() == 0);
    } else {
        lemma_split_joined(items, Seq::empty());
        lemma_some_token_unfold(
            Seq::<char>::empty() + items[0],
            spaced_tokens(items.drop_first()),
            name,
        );
        assert(Seq::<char>::empty() + items[0] =~= items[0]);
        lemma_trim_plain(items[0]);
        lemma_spaced_tokens_membership(items.drop_first(), name);
        let rest = items.drop_first();
        if items[0] == name {
            assert(exists|i: int| 0 <= i < items.len() && items[i] == name);
        }
        if exists|i: int| 0 <= i < rest.len() && rest[i] == name {
            let i = choose|i: int| 0 <= i < rest.len() && rest[i] == name;
            assert(items[i + 1] == name);
        }
        if exists|i: int| 0 <= i < items.len() && items[i] == name {
            let i = choose|i: int| 0 <= i < items.len() && items[i] == name;
            if i > 0 {
                assert(rest[i - 1] == name);
            }
        }
    }
}

/// The names a list of login items reads as, for [`lemma_listing_matches_membership`].
pub open spec fn name_views(items: Seq<String>) -> Seq<Seq<char>> {
    Seq::new(items.len(), |i: int| items[i]@)
}

/// The round trip stated against the modelled login-items list: reading
/// back a rendered listing agrees with what `is_enabled` reports of the
/// model.
pub proof fn lemma_listing_matches_membership(items: Seq<String>, name: Seq<char>)
    requires
        forall|i: int| 0 <= i < items.len() ==> plain_name(#[trigger] items[i]@),
        name.len() > 0,
    ensures
        listed_in_output(joined_names(name_views(items)), name) == seq_contains_name(items, name),
{
    let views = name_views(items);
    assert(forall|i: int| 0 <= i < views.len() ==> plain_name(#[trigger] views[i]));
    lemma_listing_round_trip(views, name);
    if exists|i: int| 0 <= i < views.len() && views[i] == name {
        let i = choose|i: int| 0 <= i < views.len() && views[i] == name;
        assert(items[i]@ == name);
    }
    if seq_contains_name(items, name) {
        let i = choose|i: int| 0 <= i < items.len() && items[i]@ == name;
        assert(views[i] == name);
    }
}

/// After a successful macOS `enable`, `is_enabled` reports true.
pub proof fn lemma_enable_then_enabled_mac(
    r: AutoLaunch,
    s0: MacState,
    s1: MacState,
    res: Result<(), Error>,
)
    requires
        mac_enable_post(r, s0, s1, res),
        res is Ok,
    ensures
        mac_enabled(r, s1),
{
    if !r.use_launch_agent {
        if seq_contains_name(s0.login_items@, r.app_name@) {
            let i = choose|i: int|
                0 <= i < s0.login_items@.len() && s0.login_items@[i]@ == r.app_name@;
            assert(s1.login_items@[i]@ == r.app_name@);
        } else {
            assert(s1.login_items@[s1.login_items@.len() - 1]@ == r.app_name@);
        }
    }
}

/// After a successful macOS `disable`, `is_enabled` reports false.
pub proof fn lemma_disable_then_disabled_mac(
    r: AutoLaunch,
    s0: MacState,
    s1: MacState,
    res: Result<(), Error>,
)
    requires
        mac_disable_post(r, s0, s1, res),
        res is Ok,
    ensures
        !mac_enabled(r, s1),
{
    if !r.use_launch_agent {
        lemma_without_name_not_contains(s0.login_items@, r.app_name@);
    }
}

/// `disable` touches only the Record's own login items: membership of
/// every other name is exactly what it was.
pub proof fn lemma_disable_keeps_other_login_items(
    r: AutoLaunch,
    s0: MacState,
    s1: MacState,
    res: Result<(), Error>,
    other: Seq<char>,
)
    requires
        mac_disable_post(r, s0, s1, res),
        !r.use_launch_agent,
        res is Ok,
        other != r.app_name@,
    ensures
        seq_contains_name(s1.login_items@, other) == seq_contains_name(s0.login_items@, other),
{
    crate::text::lemma_without_name_keeps_others(s0.login_items@, r.app_name@, other);
}

/// In the launch-agent sub-mode, `disable` on a Record that was never
/// enabled succeeds and leaves no residue. (In the AppleScript sub-mode
/// System Events refuses the delete of an absent login item, so the
/// operation reports the script failure instead.)
pub proof fn lemma_disable_never_enabled_mac(
    r: AutoLaunch,
    s0: MacState,
    s1: MacState,
    res: Result<(), Error>,
)
    requires
        mac_disable_post(r, s0, s1, res),
        r.use_launch_agent,
        s0.agent_file is None,
    ensures
        res is Ok,
        s1 == s0,
{
}

} // verus!

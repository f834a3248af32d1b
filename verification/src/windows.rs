//! The Windows startup-registration state machine.
//!
//! Four registry locations take part, two per hive: a `Run` key holding a
//! string value named after the application, and a `StartupApproved` key
//! holding a 12-byte record under the same name through which the Task
//! Manager overrides the enabled state. [`HiveState`] models one hive's
//! slice of that state for a single value name; every operation below is a
//! verified transition over it.

use vstd::prelude::*;

use crate::AutoLaunch;
use crate::WindowsEnableMode;
use crate::errors::Error;
use crate::text::push_space_joined;
use crate::text::space_joined;

verus! {

/// Per-user `Run` key path.
pub const USER_RUN_PATH: &'static str = "SOFTWARE\\Microsoft\\Windows\\CurrentVersion\\Run";

/// Per-machine `Run` key path.
pub const MACHINE_RUN_PATH: &'static str =
    "SOFTWARE\\WOW6432Node\\Microsoft\\Windows\\CurrentVersion\\Run";

/// Per-user Task-Manager `StartupApproved` key path.
pub const USER_APPROVED_PATH: &'static str =
    "SOFTWARE\\Microsoft\\Windows\\CurrentVersion\\Explorer\\StartupApproved\\Run";

/// Per-machine Task-Manager `StartupApproved` key path.
pub const MACHINE_APPROVED_PATH: &'static str =
    "SOFTWARE\\Microsoft\\Windows\\CurrentVersion\\Explorer\\StartupApproved\\Run32";

/// One hive's slice of the startup registration state, for a single value
/// name: the Record's `app_name`. No other value name is ever touched.
#[derive(Debug, Clone)]
pub struct HiveState {
    /// Whether this process may open this hive's `Run` key for writing;
    /// false models a permission failure (an unprivileged process against
    /// the machine hive).
    pub run_writable: bool,
    /// The string data registered under the name in the `Run` key; `None`
    /// when the value (or the key) is absent.
    pub run_value: Option<String>,
    /// Whether the `StartupApproved` key exists at all; older systems lack
    /// it.
    pub approved_key_exists: bool,
    /// Whether the `StartupApproved` key admits writes.
    pub approved_writable: bool,
    /// The binary record under the name in the `StartupApproved` key.
    pub approved_value: Option<Vec<u8>>,
    /// Whether reads of this hive's keys fail with access denied; models a
    /// hive this process cannot query. Other failure shapes are left to a
    /// real-registry binding to map.
    pub read_denied: bool,
}

/// The two hives a Windows registration can live in.
#[derive(Debug, Clone)]
pub struct WindowsState {
    /// The local-machine hive.
    pub machine: HiveState,
    /// The current-user hive.
    pub user: HiveState,
}

/// The canonical 12-byte record that marks an entry enabled: status tag
/// `0x02` and eight zero bytes in place of a disabled-at timestamp.
pub open spec fn enabled_blob() -> Seq<u8> {
    Seq::new(12, |i: int| if i == 0 { 2u8 } else { 0u8 })
}

/// Builds the canonical enabled record.
pub fn make_enabled_blob() -> (r: Vec<u8>)
    ensures
        r@ == enabled_blob(),
{
    let mut v: Vec<u8> = Vec::new();
    v.push(2u8);
    v.push(0u8);
    v.push(0u8);
    v.push(0u8);
    v.push(0u8);
    v.push(0u8);
    v.push(0u8);
    v.push(0u8);
    v.push(0u8);
    v.push(0u8);
    v.push(0u8);
    v.push(0u8);
    proof {
        assert(v@ =~= enabled_blob());
    }
    v
}

/// Whether the last eight bytes of `b` are all zero: the canonical reading
/// of an approved-key record as "enabled". Meaningful when `b` has at least
/// eight bytes.
pub open spec fn trailing_eight_zero(b: Seq<u8>) -> bool {
    forall|i: int| b.len() - 8 <= i < b.len() ==> b[i] == 0
}

/// Reads an approved-key record: `Ok(true)` exactly when the trailing eight
/// bytes, the disabled-at timestamp slot, are all zero. A record shorter
/// than eight bytes is unreadable.
pub fn last_eight_bytes_all_zeros(bytes: &[u8]) -> (r: Result<bool, &'static str>)
    ensures
        r is Ok <==> bytes@.len() >= 8,
        r matches Ok(b) ==> b == trailing_eight_zero(bytes@),
        r matches Err(m) ==> m@ == "Bytes too short"@,
{
    let n: usize = bytes.len();
    if n < 8 {
        return Err("Bytes too short");
    }
    let mut i: usize = n - 8;
    while i < n
        invariant
            n - 8 <= i <= n,
            n == bytes@.len(),
            n >= 8,
            forall|k: int| n - 8 <= k < i ==> bytes@[k] == 0,
        decreases n - i,
    {
        if bytes[i] != 0 {
            return Ok(false);
        }
        i += 1;
    }
    Ok(true)
}

/// Whether the name is registered in this hive: its `Run` value is present.
pub open spec fn registered_in(h: HiveState) -> bool {
    h.run_value is Some
}

/// How the Task-Manager override reads in this hive: absence of the key, of
/// the value, or a value shorter than eight bytes all mean "enabled";
/// otherwise the trailing eight bytes decide.
pub open spec fn approved_in(h: HiveState) -> bool {
    if !h.approved_key_exists {
        true
    } else {
        match h.approved_value {
            Option::None => true,
            Option::Some(v) => v@.len() < 8 || trailing_eight_zero(v@),
        }
    }
}

/// The string registered under the `Run` key: the path and the arguments
/// joined by single spaces.
pub open spec fn run_command_spec(path: Seq<char>, args: Seq<Seq<char>>) -> Seq<char> {
    path + space_joined(args)
}

/// The hive the `is_enabled` predicate reads for this Record: the mode's
/// hive, with `Dynamic` preferring the machine hive when it can be read
/// and is registered there; an unreadable or unregistered machine hive
/// falls through to the user hive.
pub open spec fn chosen_hive(r: AutoLaunch, s: WindowsState) -> HiveState {
    match r.enable_mode {
        WindowsEnableMode::System => s.machine,
        WindowsEnableMode::CurrentUser => s.user,
        WindowsEnableMode::Dynamic => if !s.machine.read_denied && registered_in(s.machine) {
            s.machine
        } else {
            s.user
        },
    }
}

/// What `is_enabled` reports when the chosen hive can be read:
/// registration and approval together, in the chosen hive.
pub open spec fn windows_enabled(r: AutoLaunch, s: WindowsState) -> bool {
    registered_in(chosen_hive(r, s)) && approved_in(chosen_hive(r, s))
}

/// The full `is_enabled` outcome: a chosen hive this process cannot read
/// is a fatal access-denied failure; otherwise the predicate's verdict.
pub open spec fn windows_is_enabled_result(r: AutoLaunch, s: WindowsState) -> Result<bool, Error> {
    if chosen_hive(r, s).read_denied {
        Err(Error::AccessDenied)
    } else {
        Ok(windows_enabled(r, s))
    }
}

/// Whether an enable attempt against this hive goes through completely.
pub open spec fn hive_enable_ok(h: HiveState) -> bool {
    h.run_writable && (h.approved_key_exists ==> h.approved_writable)
}

/// How one hive changes under an enable attempt. The `Run` write comes
/// first, so a later refusal of the approved key still leaves the name
/// registered; an absent approved key is ignorable, a write refusal on an
/// existing one is fatal.
pub open spec fn hive_enable_post(
    r: AutoLaunch,
    h0: HiveState,
    h1: HiveState,
    res: Result<(), Error>,
) -> bool {
    if !h0.run_writable {
        res matches Err(e) && e == Error::AccessDenied && h1 == h0
    } else {
        &&& h1.run_writable == h0.run_writable
        &&& h1.approved_key_exists == h0.approved_key_exists
        &&& h1.approved_writable == h0.approved_writable
        &&& h1.read_denied == h0.read_denied
        &&& h1.run_value matches Some(v) && v@ == run_command_spec(
            r.app_path@,
            r.args.deep_view(),
        )
        &&& if !h0.approved_key_exists {
            res is Ok && h1.approved_value == h0.approved_value
        } else if !h0.approved_writable {
            (res matches Err(e) && e == Error::AccessDenied) && h1.approved_value
                == h0.approved_value
        } else {
            res is Ok && (h1.approved_value matches Some(b) && b@ == enabled_blob())
        }
    }
}

/// How the whole Windows state changes under `enable`, mode by mode.
/// `Dynamic` attempts the machine hive and falls back to the user hive only
/// on an access-denied failure.
pub open spec fn windows_enable_post(
    r: AutoLaunch,
    s0: WindowsState,
    s1: WindowsState,
    res: Result<(), Error>,
) -> bool {
    match r.enable_mode {
        WindowsEnableMode::System => hive_enable_post(r, s0.machine, s1.machine, res) && s1.user
            == s0.user,
        WindowsEnableMode::CurrentUser => hive_enable_post(r, s0.user, s1.user, res) && s1.machine
            == s0.machine,
        WindowsEnableMode::Dynamic => if hive_enable_ok(s0.machine) {
            &&& hive_enable_post(r, s0.machine, s1.machine, Ok(()))
            &&& res is Ok
            &&& s1.user == s0.user
        } else {
            &&& hive_enable_post(r, s0.machine, s1.machine, Err(Error::AccessDenied))
            &&& hive_enable_post(r, s0.user, s1.user, res)
        },
    }
}

/// A hive after its `Run` value was removed; everything else is kept, the
/// approved record deliberately included.
pub open spec fn hive_run_cleared(h0: HiveState, h1: HiveState) -> bool {
    &&& h1.run_value is None
    &&& h1.run_writable == h0.run_writable
    &&& h1.approved_key_exists == h0.approved_key_exists
    &&& h1.approved_writable == h0.approved_writable
    &&& h1.approved_value == h0.approved_value
    &&& h1.read_denied == h0.read_denied
}

/// How one hive changes under a `Run`-value removal; removing an absent
/// value counts as success.
pub open spec fn hive_remove_post(h0: HiveState, h1: HiveState, res: Result<(), Error>) -> bool {
    if !h0.run_writable {
        (res matches Err(e) && e == Error::AccessDenied) && h1 == h0
    } else {
        res is Ok && hive_run_cleared(h0, h1)
    }
}

/// How the whole Windows state changes under `disable`. `System` and
/// `CurrentUser` touch their own hive only; `Dynamic` attempts the machine
/// removal, ignores an access-denied refusal there, and then clears the
/// user hive.
pub open spec fn windows_disable_post(
    r: AutoLaunch,
    s0: WindowsState,
    s1: WindowsState,
    res: Result<(), Error>,
) -> bool {
    match r.enable_mode {
        WindowsEnableMode::System => hive_remove_post(s0.machine, s1.machine, res) && s1.user
            == s0.user,
        WindowsEnableMode::CurrentUser => hive_remove_post(s0.user, s1.user, res) && s1.machine
            == s0.machine,
        WindowsEnableMode::Dynamic => {
            &&& if s0.machine.run_writable {
                hive_run_cleared(s0.machine, s1.machine)
            } else {
                s1.machine == s0.machine
            }
            &&& hive_remove_post(s0.user, s1.user, res)
        },
    }
}

/// What the starting state must satisfy so that a successful `enable`
/// reads back as enabled: the mode's hive is readable, and on `Dynamic`
/// the hive that takes the enable is also the hive the predicate reads —
/// either the machine hive takes the full enable and can be read, or it
/// refuses the very first write while holding no stale registration and
/// the user hive can be read. A machine hive that holds a stale,
/// Task-Manager-disabled or unreadable registration masks a successful
/// user-hive enable.
pub open spec fn enable_reads_back(r: AutoLaunch, s: WindowsState) -> bool {
    match r.enable_mode {
        WindowsEnableMode::System => !s.machine.read_denied,
        WindowsEnableMode::CurrentUser => !s.user.read_denied,
        WindowsEnableMode::Dynamic => (hive_enable_ok(s.machine) && !s.machine.read_denied) || (
        !s.machine.run_writable && s.machine.run_value is None && !s.user.read_denied),
    }
}

/// After a successful `enable`, `is_enabled` reports true, the chosen
/// hive registers exactly the run command, and its Task-Manager record,
/// when the approved key exists at all, is stamped back to the canonical
/// enabled one — also after a Task-Manager disable, which a fresh enable
/// undoes.
pub proof fn lemma_enable_then_enabled_windows(
    r: AutoLaunch,
    s0: WindowsState,
    s1: WindowsState,
    res: Result<(), Error>,
)
    requires
        windows_enable_post(r, s0, s1, res),
        res is Ok,
        enable_reads_back(r, s0),
    ensures
        windows_is_enabled_result(r, s1) == Ok::<bool, Error>(true),
        chosen_hive(r, s1).run_value matches Some(v) && v@ == run_command_spec(
            r.app_path@,
            r.args.deep_view(),
        ),
        chosen_hive(r, s1).approved_key_exists ==> (chosen_hive(r, s1).approved_value matches Some(
            b,
        ) && b@ == enabled_blob()),
{
}

/// What the starting state must satisfy so that a successful `disable`
/// reads back as disabled: the hive the predicate then reads is readable,
/// and on `Dynamic` the machine hive is writable or unregistered — a
/// machine-hive registration that an unprivileged process cannot delete
/// stays visible.
pub open spec fn disable_reads_back(r: AutoLaunch, s: WindowsState) -> bool {
    match r.enable_mode {
        WindowsEnableMode::System => !s.machine.read_denied,
        WindowsEnableMode::CurrentUser => !s.user.read_denied,
        WindowsEnableMode::Dynamic => (s.machine.run_writable || s.machine.run_value is None)
            && !s.user.read_denied,
    }
}

/// After a successful `disable`, `is_enabled` reports false.
pub proof fn lemma_disable_then_disabled_windows(
    r: AutoLaunch,
    s0: WindowsState,
    s1: WindowsState,
    res: Result<(), Error>,
)
    requires
        windows_disable_post(r, s0, s1, res),
        res is Ok,
        disable_reads_back(r, s0),
    ensures
        windows_is_enabled_result(r, s1) == Ok::<bool, Error>(false),
{
}

/// `disable` on a never-registered state succeeds and leaves no residue:
/// the state is unchanged, provided the hives the mode opens for writing
/// admit it.
pub proof fn lemma_disable_never_enabled_windows(
    r: AutoLaunch,
    s0: WindowsState,
    s1: WindowsState,
    res: Result<(), Error>,
)
    requires
        windows_disable_post(r, s0, s1, res),
        s0.machine.run_value is None,
        s0.user.run_value is None,
        match r.enable_mode {
            WindowsEnableMode::System => s0.machine.run_writable,
            WindowsEnableMode::CurrentUser => s0.user.run_writable,
            WindowsEnableMode::Dynamic => s0.user.run_writable,
        },
    ensures
        res is Ok,
        s1.machine == s0.machine,
        s1.user == s0.user,
{
}

/// A Task-Manager override record with a nonzero byte among its trailing
/// eight turns `is_enabled` off, whatever the record's status tag and
/// however the entry is registered; a later successful `enable` stamps the
/// canonical record back and restores it.
pub proof fn lemma_override_turns_enabled_off(r: AutoLaunch, s: WindowsState, b: Seq<u8>)
    requires
        chosen_hive(r, s).approved_key_exists,
        chosen_hive(r, s).approved_value matches Some(v) && v@ == b,
        b.len() >= 8,
        !trailing_eight_zero(b),
    ensures
        !windows_enabled(r, s),
        !chosen_hive(r, s).read_denied ==> windows_is_enabled_result(r, s) == Ok::<bool, Error>(
            false,
        ),
{
}

/// Without an approved key the override is moot: enabledness is the
/// registration state alone.
pub proof fn lemma_missing_approved_key_is_registration(r: AutoLaunch, s: WindowsState)
    requires
        !chosen_hive(r, s).approved_key_exists,
    ensures
        windows_enabled(r, s) == registered_in(chosen_hive(r, s)),
{
}

/// Removes the `Run` value from one hive. A missing value reports
/// not-found, which counts as success; only a write refusal is an error.
fn remove_run_value(h: &mut HiveState) -> (res: Result<(), Error>)
    ensures
        hive_remove_post(*old(h), *final(h), res),
{
    if !h.run_writable {
        return Err(Error::AccessDenied);
    }
    h.run_value = None;
    Ok(())
}

impl AutoLaunch {
    /// The string the `Run` key registers: `app_path` and the arguments
    /// joined by single spaces.
    pub fn run_command(&self) -> (r: String)
        ensures
            r@ == run_command_spec(self.app_path@, self.args.deep_view()),
    {
        let mut out = self.app_path.clone();
        push_space_joined(&mut out, &self.args);
        out
    }

    /// Enables against one hive: registers the command under the `Run` key,
    /// then stamps the approved key with the canonical enabled record when
    /// that key exists.
    fn enable_with_hive(&self, h: &mut HiveState) -> (res: Result<(), Error>)
        ensures
            hive_enable_post(*self, *old(h), *final(h), res),
    {
        if !h.run_writable {
            return Err(Error::AccessDenied);
        }
        h.run_value = Some(self.run_command());
        if !h.approved_key_exists {
            return Ok(());
        }
        if !h.approved_writable {
            return Err(Error::AccessDenied);
        }
        h.approved_value = Some(make_enabled_blob());
        Ok(())
    }

    /// Enables the registration in the mode's hive; `Dynamic` falls back to
    /// the current-user hive when the machine hive refuses access.
    pub fn enable_windows(&self, st: &mut WindowsState) -> (res: Result<(), Error>)
        ensures
            windows_enable_post(*self, *old(st), *final(st), res),
    {
        match self.enable_mode {
            WindowsEnableMode::System => self.enable_with_hive(&mut st.machine),
            WindowsEnableMode::CurrentUser => self.enable_with_hive(&mut st.user),
            WindowsEnableMode::Dynamic => {
                match self.enable_with_hive(&mut st.machine) {
                    Ok(()) => Ok(()),
                    Err(Error::AccessDenied) => self.enable_with_hive(&mut st.user),
                    Err(e) => Err(e),
                }
            },
        }
    }

    /// Disables the registration: removes the `Run` value from the mode's
    /// hive. `Dynamic` attempts the machine removal, ignores an
    /// access-denied refusal there, and then clears the user hive; the
    /// approved record is left in place.
    pub fn disable_windows(&self, st: &mut WindowsState) -> (res: Result<(), Error>)
        ensures
            windows_disable_post(*self, *old(st), *final(st), res),
    {
        match self.enable_mode {
            WindowsEnableMode::System => remove_run_value(&mut st.machine),
            WindowsEnableMode::CurrentUser => remove_run_value(&mut st.user),
            WindowsEnableMode::Dynamic => {
                match remove_run_value(&mut st.machine) {
                    Ok(()) => (),
                    Err(Error::AccessDenied) => (),
                    Err(e) => {
                        return Err(e);
                    },
                }
                remove_run_value(&mut st.user)
            },
        }
    }

    /// Whether the name is registered in this hive; a hive this process
    /// cannot read is an access-denied failure.
    fn is_registered(&self, h: &HiveState) -> (r: Result<bool, Error>)
        ensures
            h.read_denied ==> (r matches Err(e) && e == Error::AccessDenied),
            !h.read_denied ==> r == Ok::<bool, Error>(registered_in(*h)),
    {
        if h.read_denied {
            return Err(Error::AccessDenied);
        }
        Ok(h.run_value.is_some())
    }

    /// Reads the Task-Manager override for this hive; every unreadable
    /// shape, missing key, missing value or a record shorter than eight
    /// bytes, counts as enabled, but a hive this process cannot read is an
    /// access-denied failure.
    fn is_task_manager_enabled(&self, h: &HiveState) -> (r: Result<bool, Error>)
        ensures
            h.read_denied ==> (r matches Err(e) && e == Error::AccessDenied),
            !h.read_denied ==> r == Ok::<bool, Error>(approved_in(*h)),
    {
        if h.read_denied {
            return Err(Error::AccessDenied);
        }
        if !h.approved_key_exists {
            return Ok(true);
        }
        match &h.approved_value {
            None => Ok(true),
            Some(v) => match last_eight_bytes_all_zeros(v.as_slice()) {
                Ok(b) => Ok(b),
                Err(_) => Ok(true),
            },
        }
    }

    /// Whether the registration is enabled: registered in the chosen hive
    /// and not overridden there by the Task Manager. The registration is
    /// read first, so a stale approved record alone never reports enabled;
    /// on `Dynamic` an unreadable machine hive falls through to the user
    /// hive.
    pub fn is_enabled_windows(&self, st: &WindowsState) -> (res: Result<bool, Error>)
        ensures
            res == windows_is_enabled_result(*self, *st),
    {
        let use_machine: bool = match self.enable_mode {
            WindowsEnableMode::System => true,
            WindowsEnableMode::CurrentUser => false,
            WindowsEnableMode::Dynamic => match self.is_registered(&st.machine) {
                Ok(reg) => reg,
                Err(_) => false,
            },
        };
        let registered: bool = match (if use_machine {
            self.is_registered(&st.machine)
        } else {
            self.is_registered(&st.user)
        }) {
            Ok(reg) => reg,
            Err(e) => {
                return Err(e);
            },
        };
        if !registered {
            return Ok(false);
        }
        let approved = if use_machine {
            self.is_task_manager_enabled(&st.machine)
        } else {
            self.is_task_manager_enabled(&st.user)
        };
        match approved {
            Ok(b) => Ok(b),
            Err(e) => Err(e),
        }
    }
}

} // verus!

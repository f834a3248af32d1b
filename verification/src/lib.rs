//! Register an executable so that the desktop session launches it at user
//! login, query that registration, and revoke it.
//!
//! Three platforms are covered. Linux keeps a desktop entry under the XDG
//! autostart directory. macOS either writes a per-user launch agent plist or
//! drives the login-items database through AppleScript. Windows keeps a
//! string value under a `Run` registry key, paired with a 12-byte
//! Task-Manager override record under a `StartupApproved` key.
//!
//! Each persistent store is modelled here as plain data ([`OsState`]), and
//! every operation is a verified transition over that model: what `enable`
//! writes, what `disable` removes, and exactly when `is_enabled` answers
//! `true`. A thin unverified binding may carry the same transitions out
//! against the real filesystem, script runner, or registry.

use vstd::prelude::*;

pub mod errors;
pub mod linux;
pub mod macos;
pub mod text;
pub mod windows;

pub use errors::Error;
pub use errors::RequiredField;
pub use linux::LinuxState;
pub use macos::MacState;
pub use windows::HiveState;
pub use windows::WindowsState;

use linux::linux_enable_post;
use linux::linux_disable_post;
use linux::linux_enabled;
use macos::mac_enable_post;
use macos::mac_disable_post;
use macos::mac_enabled;
use text::login_item_name;
use text::login_item_name_of;
use text::seq_contains_name;
use windows::windows_enable_post;
use windows::windows_disable_post;
use windows::windows_enabled;
use windows::windows_is_enabled_result;
use windows::enable_reads_back;
use windows::disable_reads_back;

verus! {

/// The desktop platform a Record is bound to.
#[derive(Debug, Clone, Copy, PartialEq, Eq, Structural)]
pub enum Platform {
    Linux,
    MacOs,
    Windows,
}

/// Which registry hive the Windows backend operates on.
#[derive(Debug, Clone, Copy, PartialEq, Eq, Structural)]
pub enum WindowsEnableMode {
    /// Attempt the machine hive first; on an access-denied failure fall back
    /// to the current-user hive.
    Dynamic,
    /// Operate only on the current-user hive.
    CurrentUser,
    /// Operate only on the machine hive.
    System,
}

/// The immutable Registration Record: the configuration a caller supplies,
/// bound to a platform at construction.
#[derive(Debug, Clone)]
pub struct AutoLaunch {
    /// The platform the Record was built for; fixed at construction.
    pub platform: Platform,
    /// The display name; the identifier of the registration in the store.
    pub app_name: String,
    /// The path of the executable or `.app` bundle.
    pub app_path: String,
    /// Arguments passed to the executable at login.
    pub args: Vec<String>,
    /// macOS only: write a launch agent instead of driving AppleScript.
    pub use_launch_agent: bool,
    /// Linux and macOS: ask the application to start hidden.
    pub hidden: bool,
    /// Windows only: which hive to operate on.
    pub enable_mode: WindowsEnableMode,
    /// macOS launch agent only: reverse-DNS identifiers listed in the plist.
    pub bundle_identifiers: Vec<String>,
    /// macOS launch agent only: a fragment inserted verbatim into the plist
    /// dict.
    pub agent_extra_config: String,
}

impl AutoLaunch {
    /// Whether the host platform is supported. The three platforms this
    /// library models are exactly the supported ones.
    pub fn is_support() -> (r: bool)
        ensures
            r,
    {
        true
    }

    /// The effective application name: what the Record registers under.
    pub fn get_app_name(&self) -> (r: &str)
        ensures
            r@ == self.app_name@,
    {
        self.app_name.as_str()
    }

    /// The application path as supplied at construction.
    pub fn get_app_path(&self) -> (r: &str)
        ensures
            r@ == self.app_path@,
    {
        self.app_path.as_str()
    }

    /// Whether the application is asked to start hidden (Linux and macOS).
    pub fn is_hidden(&self) -> (r: bool)
        ensures
            r == self.hidden,
    {
        self.hidden
    }
}

/// The name a Record effectively registers under. In the macOS AppleScript
/// sub-mode the login-items database knows a bundle by the basename of its
/// path with a trailing `.app` stripped, whatever name the caller passed;
/// everywhere else the caller's name stands verbatim.
pub open spec fn effective_name(
    platform: Platform,
    use_launch_agent: bool,
    name: Seq<char>,
    path: Seq<char>,
) -> Seq<char> {
    if platform == Platform::MacOs && !use_launch_agent {
        login_item_name(path)
    } else {
        name
    }
}

impl AutoLaunch {
    /// Builds a Record bound to a platform. The macOS AppleScript sub-mode
    /// normalizes `app_name` as [`effective_name`] says; every other field
    /// is taken verbatim.
    pub fn new(
        platform: Platform,
        app_name: &str,
        app_path: &str,
        args: Vec<String>,
        use_launch_agent: bool,
        hidden: bool,
        enable_mode: WindowsEnableMode,
        bundle_identifiers: Vec<String>,
        agent_extra_config: &str,
    ) -> (r: AutoLaunch)
        ensures
            r.platform == platform,
            r.app_name@ == effective_name(platform, use_launch_agent, app_name@, app_path@),
            r.app_path@ == app_path@,
            r.args == args,
            r.use_launch_agent == use_launch_agent,
            r.hidden == hidden,
            r.enable_mode == enable_mode,
            r.bundle_identifiers == bundle_identifiers,
            r.agent_extra_config@ == agent_extra_config@,
    {
        let name: String = if platform == Platform::MacOs && !use_launch_agent {
            login_item_name_of(app_path)
        } else {
            app_name.to_owned()
        };
        AutoLaunch {
            platform,
            app_name: name,
            app_path: app_path.to_owned(),
            args,
            use_launch_agent,
            hidden,
            enable_mode,
            bundle_identifiers,
            agent_extra_config: agent_extra_config.to_owned(),
        }
    }
}

/// The persistent store a Record's operations run against: one platform's
/// slice of OS-managed state, modelled as plain data.
#[derive(Debug, Clone)]
pub enum OsState {
    Linux(LinuxState),
    MacOs(MacState),
    Windows(WindowsState),
}

/// What `is_enabled` reports against a store it can read.
pub open spec fn os_enabled(r: AutoLaunch, os: OsState) -> bool {
    match os {
        OsState::Linux(s) => linux_enabled(s),
        OsState::MacOs(s) => mac_enabled(r, s),
        OsState::Windows(s) => windows_enabled(r, s),
    }
}

/// The full `is_enabled` outcome against each store; only a Windows hive
/// this process cannot read makes the query itself fail.
pub open spec fn os_is_enabled_result(r: AutoLaunch, os: OsState) -> Result<bool, Error> {
    match os {
        OsState::Windows(s) => windows_is_enabled_result(r, s),
        _ => Ok(os_enabled(r, os)),
    }
}

/// How a store changes under `enable`: the matching backend's transition;
/// the store keeps its platform.
pub open spec fn enable_post(
    r: AutoLaunch,
    os0: OsState,
    os1: OsState,
    res: Result<(), Error>,
) -> bool {
    match (os0, os1) {
        (OsState::Linux(s0), OsState::Linux(s1)) => linux_enable_post(r, s0, s1, res),
        (OsState::MacOs(s0), OsState::MacOs(s1)) => mac_enable_post(r, s0, s1, res),
        (OsState::Windows(s0), OsState::Windows(s1)) => windows_enable_post(r, s0, s1, res),
        _ => false,
    }
}

/// How a store changes under `disable`.
pub open spec fn disable_post(
    r: AutoLaunch,
    os0: OsState,
    os1: OsState,
    res: Result<(), Error>,
) -> bool {
    match (os0, os1) {
        (OsState::Linux(s0), OsState::Linux(s1)) => linux_disable_post(s0, s1, res),
        (OsState::MacOs(s0), OsState::MacOs(s1)) => mac_disable_post(r, s0, s1, res),
        (OsState::Windows(s0), OsState::Windows(s1)) => windows_disable_post(r, s0, s1, res),
        _ => false,
    }
}

impl AutoLaunch {
    /// Enables the registration in the store.
    pub fn enable(&self, os: &mut OsState) -> (res: Result<(), Error>)
        ensures
            enable_post(*self, *old(os), *final(os), res),
    {
        match os {
            OsState::Linux(st) => self.enable_linux(st),
            OsState::MacOs(st) => self.enable_mac(st),
            OsState::Windows(st) => self.enable_windows(st),
        }
    }

    /// Disables the registration in the store.
    pub fn disable(&self, os: &mut OsState) -> (res: Result<(), Error>)
        ensures
            disable_post(*self, *old(os), *final(os), res),
    {
        match os {
            OsState::Linux(st) => self.disable_linux(st),
            OsState::MacOs(st) => self.disable_mac(st),
            OsState::Windows(st) => self.disable_windows(st),
        }
    }

    /// Whether the registration is enabled in the store.
    pub fn is_enabled(&self, os: &OsState) -> (res: Result<bool, Error>)
        ensures
            res == os_is_enabled_result(*self, *os),
    {
        match os {
            OsState::Linux(st) => self.is_enabled_linux(st),
            OsState::MacOs(st) => self.is_enabled_mac(st),
            OsState::Windows(st) => self.is_enabled_windows(st),
        }
    }
}

/// What a Windows store must satisfy so that the enable law below sees
/// the write it made: the hives the predicate then reads are readable,
/// and on `Dynamic` the hive that takes the enable is also the hive read
/// — a machine hive that refuses writes while holding a stale
/// registration masks the user hive (see
/// [`windows::enable_reads_back`]).
pub open spec fn store_reads_back_after_enable(r: AutoLaunch, os: OsState) -> bool {
    match os {
        OsState::Windows(s) => enable_reads_back(r, s),
        _ => true,
    }
}

/// Enable-then-query law: after a successful `enable`, `is_enabled`
/// reports true. On a Windows store this asks
/// [`store_reads_back_after_enable`] of the starting state.
pub proof fn lemma_enable_then_is_enabled(
    r: AutoLaunch,
    os0: OsState,
    os1: OsState,
    res: Result<(), Error>,
)
    requires
        enable_post(r, os0, os1, res),
        res is Ok,
        store_reads_back_after_enable(r, os0),
    ensures
        os_is_enabled_result(r, os1) == Ok::<bool, Error>(true),
{
    match (os0, os1) {
        (OsState::Linux(s0), OsState::Linux(s1)) => {},
        (OsState::MacOs(s0), OsState::MacOs(s1)) => {
            macos::lemma_enable_then_enabled_mac(r, s0, s1, res);
        },
        (OsState::Windows(s0), OsState::Windows(s1)) => {
            windows::lemma_enable_then_enabled_windows(r, s0, s1, res);
        },
        _ => {},
    }
}

/// What a Windows store must satisfy so that `disable` can make the
/// registration invisible: the hive the predicate then reads is readable,
/// and on `Dynamic` the machine hive is writable or was never registered
/// — an undeletable machine-hive registration stays visible (see
/// [`windows::disable_reads_back`]).
pub open spec fn store_reads_back_after_disable(r: AutoLaunch, os: OsState) -> bool {
    match os {
        OsState::Windows(s) => disable_reads_back(r, s),
        _ => true,
    }
}

/// Disable-then-query law: after a successful `disable`, `is_enabled`
/// reports false. On a Windows store this asks
/// [`store_reads_back_after_disable`] of the starting state.
pub proof fn lemma_disable_then_is_disabled(
    r: AutoLaunch,
    os0: OsState,
    os1: OsState,
    res: Result<(), Error>,
)
    requires
        disable_post(r, os0, os1, res),
        res is Ok,
        store_reads_back_after_disable(r, os0),
    ensures
        os_is_enabled_result(r, os1) == Ok::<bool, Error>(false),
{
    match (os0, os1) {
        (OsState::Linux(s0), OsState::Linux(s1)) => {},
        (OsState::MacOs(s0), OsState::MacOs(s1)) => {
            macos::lemma_disable_then_disabled_mac(r, s0, s1, res);
        },
        (OsState::Windows(s0), OsState::Windows(s1)) => {
            windows::lemma_disable_then_disabled_windows(r, s0, s1, res);
        },
        _ => {},
    }
}

/// Whether a store holds no registration for the Record: no desktop file,
/// no plist or login item, no `Run` value in either hive.
pub open spec fn never_enabled(r: AutoLaunch, os: OsState) -> bool {
    match os {
        OsState::Linux(s) => s.file is None,
        OsState::MacOs(s) => if r.use_launch_agent {
            s.agent_file is None
        } else {
            !seq_contains_name(s.login_items@, r.app_name@)
        },
        OsState::Windows(s) => s.machine.run_value is None && s.user.run_value is None,
    }
}

/// The inputs on which a `disable` of an unregistered Record can run to
/// quiet completion: the hives the mode opens for writing admit it, and
/// the macOS store is in the launch-agent sub-mode (System Events refuses
/// the delete of an absent login item, so the AppleScript sub-mode
/// reports that script failure instead).
pub open spec fn disable_runs_quietly(r: AutoLaunch, os: OsState) -> bool {
    match os {
        OsState::Linux(_) => true,
        OsState::MacOs(_) => r.use_launch_agent,
        OsState::Windows(s) => match r.enable_mode {
            WindowsEnableMode::System => s.machine.run_writable,
            WindowsEnableMode::CurrentUser => s.user.run_writable,
            WindowsEnableMode::Dynamic => s.user.run_writable,
        },
    }
}

/// No-residue law: `disable` on a Record that was never enabled succeeds
/// and leaves the store exactly as it was.
pub proof fn lemma_disable_never_enabled(
    r: AutoLaunch,
    os0: OsState,
    os1: OsState,
    res: Result<(), Error>,
)
    requires
        disable_post(r, os0, os1, res),
        never_enabled(r, os0),
        disable_runs_quietly(r, os0),
    ensures
        res is Ok,
        os1 == os0,
{
    match (os0, os1) {
        (OsState::Linux(s0), OsState::Linux(s1)) => {},
        (OsState::MacOs(s0), OsState::MacOs(s1)) => {},
        (OsState::Windows(s0), OsState::Windows(s1)) => {
            windows::lemma_disable_never_enabled_windows(r, s0, s1, res);
        },
        _ => {},
    }
}

/// Relies on `dirs::home_dir`: the user's home directory as the platform
/// reports it, when it reports one.
#[verifier::external_body]
fn home_dir_string() -> (r: Option<String>) {
    match dirs::home_dir() {
        Some(p) => Some(p.to_string_lossy().into_owned()),
        None => None,
    }
}

/// The path of the file a Record owns on a platform, under a given home
/// directory: the desktop entry on Linux, the launch-agent plist on macOS.
pub open spec fn file_path_spec(home: Seq<char>, platform: Platform, name: Seq<char>) -> Seq<
    char,
> {
    match platform {
        Platform::Linux => home + "/.config/autostart/"@ + name + ".desktop"@,
        Platform::MacOs => home + "/Library/LaunchAgents/"@ + name + ".plist"@,
        Platform::Windows => Seq::empty(),
    }
}

/// Builds [`file_path_spec`] for a given home directory: the desktop
/// entry path on Linux, the launch-agent plist path on macOS, and the
/// empty string on Windows, which keeps no file.
pub fn file_path_for_home(home: &str, platform: Platform, name: &str) -> (r: String)
    ensures
        r@ == file_path_spec(home@, platform, name@),
{
    if platform == Platform::Windows {
        return String::new();
    }
    let mut path = home.to_owned();
    if platform == Platform::Linux {
        path.append("/.config/autostart/");
        path.append(name);
        path.append(".desktop");
    } else {
        path.append("/Library/LaunchAgents/");
        path.append(name);
        path.append(".plist");
    }
    proof {
        assert(path@ =~= file_path_spec(home@, platform, name@));
    }
    path
}

impl AutoLaunch {
    /// The path of the file this Record owns: [`file_path_for_home`] under
    /// the home directory the platform reports. Windows keeps no file, and
    /// without a home directory there is no path.
    pub fn get_file(&self, platform: Platform) -> (r: Option<String>)
        ensures
            platform is Windows ==> r is None,
            r matches Some(p) ==> exists|home: Seq<char>|
                p@ == file_path_spec(home, platform, self.app_name@),
    {
        if platform == Platform::Windows {
            return None;
        }
        match home_dir_string() {
            None => None,
            Some(home) => {
                let path = file_path_for_home(home.as_str(), platform, self.app_name.as_str());
                proof {
                    assert(path@ == file_path_spec(home@, platform, self.app_name@));
                }
                Some(path)
            },
        }
    }
}

/// The collecting constructor: gathers the Record's fields and checks the
/// required ones at `build` time.
#[derive(Debug, Clone)]
pub struct AutoLaunchBuilder {
    pub app_name: Option<String>,
    pub app_path: Option<String>,
    pub args: Vec<String>,
    pub use_launch_agent: bool,
    pub hidden: bool,
    pub enable_mode: WindowsEnableMode,
    pub bundle_identifiers: Vec<String>,
    pub agent_extra_config: String,
}

impl AutoLaunchBuilder {
    /// An empty builder: no name, no path, no arguments, nothing hidden,
    /// no launch agent, `Dynamic` mode.
    pub fn new() -> (b: AutoLaunchBuilder)
        ensures
            b.app_name is None,
            b.app_path is None,
            b.args@.len() == 0,
            !b.use_launch_agent,
            !b.hidden,
            b.enable_mode == WindowsEnableMode::Dynamic,
            b.bundle_identifiers@.len() == 0,
            b.agent_extra_config@.len() == 0,
    {
        AutoLaunchBuilder {
            app_name: None,
            app_path: None,
            args: Vec::new(),
            use_launch_agent: false,
            hidden: false,
            enable_mode: WindowsEnableMode::Dynamic,
            bundle_identifiers: Vec::new(),
            agent_extra_config: String::new(),
        }
    }

    /// Sets the `app_name`.
    pub fn set_app_name(self, name: &str) -> (b: Self)
        ensures
            b.app_name matches Some(n) && n@ == name@,
            b.app_path == self.app_path,
            b.args == self.args,
            b.use_launch_agent == self.use_launch_agent,
            b.hidden == self.hidden,
            b.enable_mode == self.enable_mode,
            b.bundle_identifiers == self.bundle_identifiers,
            b.agent_extra_config == self.agent_extra_config,
    {
        AutoLaunchBuilder { app_name: Some(name.to_owned()), ..self }
    }

    /// Sets the `app_path`.
    pub fn set_app_path(self, path: &str) -> (b: Self)
        ensures
            b.app_path matches Some(p) && p@ == path@,
            b.app_name == self.app_name,
            b.args == self.args,
            b.use_launch_agent == self.use_launch_agent,
            b.hidden == self.hidden,
            b.enable_mode == self.enable_mode,
            b.bundle_identifiers == self.bundle_identifiers,
            b.agent_extra_config == self.agent_extra_config,
    {
        AutoLaunchBuilder { app_path: Some(path.to_owned()), ..self }
    }

    /// Sets the argument vector.
    pub fn set_args(self, args: Vec<String>) -> (b: Self)
        ensures
            b.args == args,
            b.app_name == self.app_name,
            b.app_path == self.app_path,
            b.use_launch_agent == self.use_launch_agent,
            b.hidden == self.hidden,
            b.enable_mode == self.enable_mode,
            b.bundle_identifiers == self.bundle_identifiers,
            b.agent_extra_config == self.agent_extra_config,
    {
        AutoLaunchBuilder { args, ..self }
    }

    /// Sets the macOS `use_launch_agent` flag.
    pub fn set_use_launch_agent(self, use_launch_agent: bool) -> (b: Self)
        ensures
            b.use_launch_agent == use_launch_agent,
            b.app_name == self.app_name,
            b.app_path == self.app_path,
            b.args == self.args,
            b.hidden == self.hidden,
            b.enable_mode == self.enable_mode,
            b.bundle_identifiers == self.bundle_identifiers,
            b.agent_extra_config == self.agent_extra_config,
    {
        AutoLaunchBuilder { use_launch_agent, ..self }
    }

    /// Sets the `hidden` flag.
    pub fn set_hidden(self, hidden: bool) -> (b: Self)
        ensures
            b.hidden == hidden,
            b.app_name == self.app_name,
            b.app_path == self.app_path,
            b.args == self.args,
            b.use_launch_agent == self.use_launch_agent,
            b.enable_mode == self.enable_mode,
            b.bundle_identifiers == self.bundle_identifiers,
            b.agent_extra_config == self.agent_extra_config,
    {
        AutoLaunchBuilder { hidden, ..self }
    }

    /// Sets the Windows enable mode.
    pub fn set_enable_mode(self, enable_mode: WindowsEnableMode) -> (b: Self)
        ensures
            b.enable_mode == enable_mode,
            b.app_name == self.app_name,
            b.app_path == self.app_path,
            b.args == self.args,
            b.use_launch_agent == self.use_launch_agent,
            b.hidden == self.hidden,
            b.bundle_identifiers == self.bundle_identifiers,
            b.agent_extra_config == self.agent_extra_config,
    {
        AutoLaunchBuilder { enable_mode, ..self }
    }

    /// Sets the macOS bundle identifiers.
    pub fn set_bundle_identifiers(self, bundle_identifiers: Vec<String>) -> (b: Self)
        ensures
            b.bundle_identifiers == bundle_identifiers,
            b.app_name == self.app_name,
            b.app_path == self.app_path,
            b.args == self.args,
            b.use_launch_agent == self.use_launch_agent,
            b.hidden == self.hidden,
            b.enable_mode == self.enable_mode,
            b.agent_extra_config == self.agent_extra_config,
    {
        AutoLaunchBuilder { bundle_identifiers, ..self }
    }

    /// Sets the macOS launch-agent extra plist fragment.
    pub fn set_agent_extra_config(self, agent_extra_config: &str) -> (b: Self)
        ensures
            b.agent_extra_config@ == agent_extra_config@,
            b.app_name == self.app_name,
            b.app_path == self.app_path,
            b.args == self.args,
            b.use_launch_agent == self.use_launch_agent,
            b.hidden == self.hidden,
            b.enable_mode == self.enable_mode,
            b.bundle_identifiers == self.bundle_identifiers,
    {
        AutoLaunchBuilder { agent_extra_config: agent_extra_config.to_owned(), ..self }
    }

    /// Produces the Record, bound to the platform. Fails with a
    /// missing-field error when `app_name` or `app_path` was never set;
    /// `app_name` is checked first.
    pub fn build(&self, platform: Platform) -> (r: Result<AutoLaunch, Error>)
        ensures
            self.app_name is None ==> (r matches Err(e) && e == Error::MissingField(
                RequiredField::AppName,
            )),
            self.app_name is Some && self.app_path is None ==> (r matches Err(e) && e
                == Error::MissingField(RequiredField::AppPath)),
            self.app_name is Some && self.app_path is Some ==> (r matches Ok(a) && {
                &&& a.platform == platform
                &&& a.app_name@ == effective_name(
                    platform,
                    self.use_launch_agent,
                    self.app_name->0@,
                    self.app_path->0@,
                )
                &&& a.app_path@ == self.app_path->0@
                &&& a.args@ == self.args@
                &&& a.use_launch_agent == self.use_launch_agent
                &&& a.hidden == self.hidden
                &&& a.enable_mode == self.enable_mode
                &&& a.bundle_identifiers@ == self.bundle_identifiers@
                &&& a.agent_extra_config@ == self.agent_extra_config@
            }),
    {
        let name: &String = match &self.app_name {
            None => {
                return Err(Error::MissingField(RequiredField::AppName));
            },
            Some(n) => n,
        };
        let path: &String = match &self.app_path {
            None => {
                return Err(Error::MissingField(RequiredField::AppPath));
            },
            Some(p) => p,
        };
        let args = self.args.clone();
        let bundle_identifiers = self.bundle_identifiers.clone();
        proof {
            assert(args@ =~= self.args@);
            assert(bundle_identifiers@ =~= self.bundle_identifiers@);
        }
        Ok(
            AutoLaunch::new(
                platform,
                name.as_str(),
                path.as_str(),
                args,
                self.use_launch_agent,
                self.hidden,
                self.enable_mode,
                bundle_identifiers,
                self.agent_extra_config.as_str(),
            ),
        )
    }
}

} // verus!

//! The Linux backend: a desktop entry under the XDG autostart directory.

use vstd::prelude::*;

use crate::AutoLaunch;
use crate::errors::Error;
use crate::text::push_space_joined;
use crate::text::space_joined;
use crate::windows::run_command_spec;

verus! {

/// The autostart directory and the one desktop file a Record owns there,
/// as the Linux backend sees them.
#[derive(Debug, Clone)]
pub struct LinuxState {
    /// Whether `~/.config/autostart` exists.
    pub dir_exists: bool,
    /// The content of `<app_name>.desktop` in that directory; `None` when
    /// the file is absent.
    pub file: Option<String>,
    /// Models a failing filesystem: directory creation, file writes and
    /// removals report an I/O error while it is set.
    pub write_fault: bool,
}

/// The `Exec` line's value: the path, the arguments joined by single
/// spaces, and the literal ` --hidden` suffix exactly when `hidden` is set.
pub open spec fn exec_line_spec(r: AutoLaunch) -> Seq<char> {
    run_command_spec(r.app_path@, r.args.deep_view()) + if r.hidden {
        " --hidden"@
    } else {
        Seq::<char>::empty()
    }
}

/// The full desktop entry the Linux backend writes.
pub open spec fn desktop_entry_spec(r: AutoLaunch) -> Seq<char> {
    "[Desktop Entry]\nType=Application\nVersion=1.0\nName="@ + r.app_name@ + "\nComment="@
        + r.app_name@ + "startup script\nExec="@ + exec_line_spec(r)
        + "\nStartupNotify=false\nTerminal=false"@
}

/// Whether the registration is enabled: the desktop file exists.
pub open spec fn linux_enabled(s: LinuxState) -> bool {
    s.file is Some
}

/// How the state changes under a Linux `enable`: the directory is there
/// and the desktop file holds exactly the generated entry, or the
/// filesystem failed and nothing changed.
pub open spec fn linux_enable_post(
    r: AutoLaunch,
    s0: LinuxState,
    s1: LinuxState,
    res: Result<(), Error>,
) -> bool {
    if s0.write_fault {
        (res matches Err(e) && e == Error::IoError) && s1 == s0
    } else {
        &&& res is Ok
        &&& s1.dir_exists
        &&& s1.file matches Some(c) && c@ == desktop_entry_spec(r)
        &&& s1.write_fault == s0.write_fault
    }
}

/// How the state changes under a Linux `disable`: an absent file is
/// success with nothing touched; otherwise the file goes, or the
/// filesystem failed and nothing changed.
pub open spec fn linux_disable_post(
    s0: LinuxState,
    s1: LinuxState,
    res: Result<(), Error>,
) -> bool {
    if s0.file is None {
        res is Ok && s1 == s0
    } else if s0.write_fault {
        (res matches Err(e) && e == Error::IoError) && s1 == s0
    } else {
        &&& res is Ok
        &&& s1.file is None
        &&& s1.dir_exists == s0.dir_exists
        &&& s1.write_fault == s0.write_fault
    }
}

impl AutoLaunch {
    /// Renders the desktop entry for this Record.
    pub fn desktop_entry(&self) -> (r: String)
        ensures
            r@ == desktop_entry_spec(*self),
    {
        let mut out = String::new();
        out.append("[Desktop Entry]\nType=Application\nVersion=1.0\nName=");
        out.append(self.app_name.as_str());
        out.append("\nComment=");
        out.append(self.app_name.as_str());
        out.append("startup script\nExec=");
        out.append(self.app_path.as_str());
        push_space_joined(&mut out, &self.args);
        if self.hidden {
            out.append(" --hidden");
        }
        out.append("\nStartupNotify=false\nTerminal=false");
        proof {
            assert(out@ =~= desktop_entry_spec(*self));
        }
        out
    }

    /// Ensures the autostart directory and writes the desktop entry,
    /// overwriting any existing file.
    pub fn enable_linux(&self, st: &mut LinuxState) -> (res: Result<(), Error>)
        ensures
            linux_enable_post(*self, *old(st), *final(st), res),
    {
        if st.write_fault {
            return Err(Error::IoError);
        }
        st.dir_exists = true;
        st.file = Some(self.desktop_entry());
        Ok(())
    }

    /// Removes the desktop file when it is present; succeeds otherwise.
    pub fn disable_linux(&self, st: &mut LinuxState) -> (res: Result<(), Error>)
        ensures
            linux_disable_post(*old(st), *final(st), res),
    {
        if st.file.is_none() {
            return Ok(());
        }
        if st.write_fault {
            return Err(Error::IoError);
        }
        st.file = None;
        Ok(())
    }

    /// Whether the desktop file exists.
    pub fn is_enabled_linux(&self, st: &LinuxState) -> (res: Result<bool, Error>)
        ensures
            res == Ok::<bool, Error>(linux_enabled(*st)),
    {
        Ok(st.file.is_some())
    }
}

/// After a successful Linux `enable` the desktop file exists and holds the
/// generated entry, whose `Exec` value is the path, the joined arguments,
/// and the ` --hidden` suffix exactly when `hidden` is set.
pub proof fn lemma_enable_writes_desktop_entry(
    r: AutoLaunch,
    s0: LinuxState,
    s1: LinuxState,
    res: Result<(), Error>,
)
    requires
        linux_enable_post(r, s0, s1, res),
        res is Ok,
    ensures
        linux_enabled(s1),
        s1.file matches Some(c) && c@ == desktop_entry_spec(r),
        exec_line_spec(r) == r.app_path@ + space_joined(r.args.deep_view()) + if r.hidden {
            " --hidden"@
        } else {
            Seq::<char>::empty()
        },
{
}

/// After a successful Linux `disable` the file is gone and `is_enabled`
/// reports false.
pub proof fn lemma_disable_removes_desktop_entry(
    s0: LinuxState,
    s1: LinuxState,
    res: Result<(), Error>,
)
    requires
        linux_disable_post(s0, s1, res),
        res is Ok,
    ensures
        !linux_enabled(s1),
{
}

/// `disable` with no desktop file present succeeds and leaves no residue.
pub proof fn lemma_disable_never_enabled_linux(
    s0: LinuxState,
    s1: LinuxState,
    res: Result<(), Error>,
)
    requires
        linux_disable_post(s0, s1, res),
        s0.file is None,
    ensures
        res is Ok,
        s1 == s0,
{
}

} // verus!

//! The failure kinds that the registration operations report.

use vstd::prelude::*;

verus! {

/// The required Record fields that the builder checks before producing a
/// Record.
#[derive(Debug, Clone, Copy, PartialEq, Eq, Structural)]
pub enum RequiredField {
    AppName,
    AppPath,
}

/// A typed failure from the builder or from a backend operation.
#[derive(Debug, Clone, Copy, PartialEq, Eq, Structural)]
pub enum Error {
    /// The builder was asked to build a Record without a required field.
    MissingField(RequiredField),
    /// The macOS backend was asked to enable an `app_path` that does not
    /// exist or is not absolute.
    InvalidInput,
    /// A registry location refused a write for lack of rights; drives the
    /// `Dynamic` fallback on Windows.
    AccessDenied,
    /// A filesystem operation on a desktop file or a launch-agent plist
    /// failed.
    IoError,
    /// The AppleScript runner exited with the carried nonzero status.
    OsError(i32),
    /// Any other registry failure; reported only by callers that bind the
    /// library to a real registry, never by the modelled operations.
    RegistryError,
}

} // verus!

//! The installer's error taxonomy, and the classification of low-level
//! operating-system failures into it.

use vstd::prelude::*;
use crate::platform::Platform;

verus! {

/// The kinds of failure the installer reports.
#[derive(Clone, Copy, Debug, PartialEq, Eq, Structural)]
pub enum ErrorCode {
    /// A file cannot be modified while another program holds it open.
    ErrWindowsFileLock,
    /// Windows relocated the installation directory and left a broken copy.
    ErrWindowsMovedDirectory,
    /// macOS denied the operation because App Management permission is
    /// missing.
    ErrMacMissingPermissions,
    /// The installation sits in the user's desktop folder.
    ErrMacDiscordInDesktop,
    /// `patch` was called on a location that is already patched.
    ErrAlreadyPatched,
    /// `unpatch` was called on a location that is not patched.
    ErrAlreadyUnpatched,
    /// A network transfer failed.
    ErrNetwork,
    /// Anything else.
    ErrUnknown,
}

/// The name of an error code, as reports print it.
pub open spec fn code_label(code: ErrorCode) -> Seq<char> {
    match code {
        ErrorCode::ErrWindowsFileLock => "ErrWindowsFileLock"@,
        ErrorCode::ErrWindowsMovedDirectory => "ErrWindowsMovedDirectory"@,
        ErrorCode::ErrMacMissingPermissions => "ErrMacMissingPermissions"@,
        ErrorCode::ErrMacDiscordInDesktop => "ErrMacDiscordInDesktop"@,
        ErrorCode::ErrAlreadyPatched => "ErrAlreadyPatched"@,
        ErrorCode::ErrAlreadyUnpatched => "ErrAlreadyUnpatched"@,
        ErrorCode::ErrNetwork => "ErrNetwork"@,
        ErrorCode::ErrUnknown => "ErrUnknown"@,
    }
}

impl ErrorCode {
    /// The name of this error code.
    pub fn label(&self) -> (s: &'static str)
        ensures
            s@ == code_label(*self),
    {
        match self {
            ErrorCode::ErrWindowsFileLock => "ErrWindowsFileLock",
            ErrorCode::ErrWindowsMovedDirectory => "ErrWindowsMovedDirectory",
            ErrorCode::ErrMacMissingPermissions => "ErrMacMissingPermissions",
            ErrorCode::ErrMacDiscordInDesktop => "ErrMacDiscordInDesktop",
            ErrorCode::ErrAlreadyPatched => "ErrAlreadyPatched",
            ErrorCode::ErrAlreadyUnpatched => "ErrAlreadyUnpatched",
            ErrorCode::ErrNetwork => "ErrNetwork",
            ErrorCode::ErrUnknown => "ErrUnknown",
        }
    }
}

/// A failure: a machine-readable code for downstream branching, plus a
/// human-readable message.
#[derive(Clone, Debug)]
pub struct InstallerError {
    pub code: ErrorCode,
    pub message: String,
}

/// The result type used throughout the installer.
pub type InstallerResult<T> = Result<T, InstallerError>;

/// An error's display form: the message followed by the code in parentheses.
pub open spec fn error_display(e: InstallerError) -> Seq<char> {
    e.message@ + " ("@ + code_label(e.code) + ")"@
}

impl InstallerError {
    /// Renders the error as reports print it: the message followed by the
    /// code in parentheses.
    pub fn display_string(&self) -> (s: String)
        ensures
            s@ == error_display(*self),
    {
        let mut s = self.message.clone();
        s.append(" (");
        s.append(self.code.label());
        s.append(")");
        s
    }
}

/// An `Err` carrying the given message and code.
pub fn error_with_code(message: &str, code: ErrorCode) -> (r: InstallerResult<()>)
    ensures
        r matches Err(e) && e.code == code && e.message@ == message@,
{
    let mut m = String::new();
    m.append(message);
    Err(InstallerError { message: m, code })
}

/// The error category for a raw operating-system error code on the given
/// platform. Code 32 on Windows is the sharing violation another process
/// causes by holding the file open; code 1 on macOS is the
/// operation-not-permitted failure seen without App Management permission.
/// There is no portable mapping, so every other pair is unknown.
pub open spec fn classified_code(raw: Option<i32>, platform: Platform) -> ErrorCode {
    if raw == Some(32i32) && platform == Platform::Windows {
        ErrorCode::ErrWindowsFileLock
    } else if raw == Some(1i32) && platform == Platform::MacOs {
        ErrorCode::ErrMacMissingPermissions
    } else {
        ErrorCode::ErrUnknown
    }
}

/// Builds the installer error for a low-level I/O failure, keyed on the raw
/// operating-system error code and the current platform, keeping the original
/// message.
pub fn error_from_os(message: String, raw: Option<i32>, platform: Platform) -> (e: InstallerError)
    ensures
        e.code == classified_code(raw, platform),
        e.message == message,
{
    let code = match raw {
        Some(32) => {
            if platform == Platform::Windows {
                ErrorCode::ErrWindowsFileLock
            } else {
                ErrorCode::ErrUnknown
            }
        },
        Some(1) => {
            if platform == Platform::MacOs {
                ErrorCode::ErrMacMissingPermissions
            } else {
                ErrorCode::ErrUnknown
            }
        },
        _ => ErrorCode::ErrUnknown,
    };
    InstallerError { message, code }
}

} // verus!

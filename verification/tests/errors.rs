use libvencord::handler::{error_from_os, error_with_code, ErrorCode, InstallerError};
use libvencord::platform::Platform;

#[test]
fn error_with_code_carries_message_and_code() {
    let err = error_with_code("nothing to do", ErrorCode::ErrAlreadyUnpatched).unwrap_err();
    assert_eq!(err.message, "nothing to do");
    assert!(matches!(err.code, ErrorCode::ErrAlreadyUnpatched));
}

#[test]
fn os_code_32_on_windows_is_a_file_lock() {
    let err = error_from_os("denied".to_string(), Some(32), Platform::Windows);
    assert!(matches!(err.code, ErrorCode::ErrWindowsFileLock));
    assert_eq!(err.message, "denied");
}

#[test]
fn os_code_1_on_macos_is_missing_permissions() {
    let err = error_from_os("denied".to_string(), Some(1), Platform::MacOs);
    assert!(matches!(err.code, ErrorCode::ErrMacMissingPermissions));
}

#[test]
fn os_codes_do_not_carry_across_platforms() {
    assert!(matches!(
        error_from_os("x".to_string(), Some(32), Platform::Linux).code,
        ErrorCode::ErrUnknown
    ));
    assert!(matches!(
        error_from_os("x".to_string(), Some(1), Platform::Windows).code,
        ErrorCode::ErrUnknown
    ));
    assert!(matches!(
        error_from_os("x".to_string(), None, Platform::Windows).code,
        ErrorCode::ErrUnknown
    ));
    assert!(matches!(
        error_from_os("x".to_string(), Some(13), Platform::MacOs).code,
        ErrorCode::ErrUnknown
    ));
}

#[test]
fn display_string_appends_the_code() {
    let err = InstallerError {
        code: ErrorCode::ErrAlreadyPatched,
        message: "This location is already patched".to_string(),
    };
    assert_eq!(err.display_string(), "This location is already patched (ErrAlreadyPatched)");
}

#[test]
fn code_labels_name_the_variants() {
    assert_eq!(ErrorCode::ErrWindowsFileLock.label(), "ErrWindowsFileLock");
    assert_eq!(ErrorCode::ErrWindowsMovedDirectory.label(), "ErrWindowsMovedDirectory");
    assert_eq!(ErrorCode::ErrMacMissingPermissions.label(), "ErrMacMissingPermissions");
    assert_eq!(ErrorCode::ErrMacDiscordInDesktop.label(), "ErrMacDiscordInDesktop");
    assert_eq!(ErrorCode::ErrAlreadyPatched.label(), "ErrAlreadyPatched");
    assert_eq!(ErrorCode::ErrAlreadyUnpatched.label(), "ErrAlreadyUnpatched");
    assert_eq!(ErrorCode::ErrNetwork.label(), "ErrNetwork");
    assert_eq!(ErrorCode::ErrUnknown.label(), "ErrUnknown");
}

use latchnott::platform::windows::hotkey::{
    is_hotkey_press, message_loop_continues, parse_shortcut, HotkeyError, HotkeyRegistration,
    HOTKEY_ID,
};
use windows_sys::Win32::UI::Input::KeyboardAndMouse::{
    MOD_ALT, MOD_CONTROL, MOD_NOREPEAT, MOD_SHIFT, MOD_WIN,
};
use windows_sys::Win32::UI::WindowsAndMessaging::{WM_HOTKEY, WM_QUIT};

#[test]
fn parses_default_shortcut() {
    let registration =
        parse_shortcut("Ctrl+Shift+Alt+L").expect("default shortcut should parse");

    assert_eq!(
        registration,
        HotkeyRegistration {
            modifiers: MOD_NOREPEAT | MOD_CONTROL | MOD_SHIFT | MOD_ALT,
            virtual_key: b'L' as u32,
        }
    );
}

#[test]
fn parses_case_insensitive_modifiers() {
    let registration = parse_shortcut("ctrl+SHIFT+alt+n").expect("shortcut should parse");

    assert_eq!(registration.virtual_key, b'N' as u32);

    assert_eq!(
        registration.modifiers,
        MOD_NOREPEAT | MOD_CONTROL | MOD_SHIFT | MOD_ALT
    );
}

#[test]
fn parses_win_modifier() {
    let registration = parse_shortcut("Win+Shift+K").expect("shortcut should parse");

    assert_eq!(registration.modifiers, MOD_NOREPEAT | MOD_WIN | MOD_SHIFT);

    assert_eq!(registration.virtual_key, b'K' as u32);
}

#[test]
fn rejects_shortcut_without_key() {
    let error = parse_shortcut("Ctrl+Shift+Alt").expect_err("shortcut without key should fail");

    assert_eq!(error.to_string(), "hotkey shortcut must contain a key");
}

#[test]
fn rejects_shortcut_with_multiple_keys() {
    let error =
        parse_shortcut("Ctrl+A+B").expect_err("shortcut with multiple keys should fail");

    assert_eq!(
        error.to_string(),
        "hotkey shortcut must contain exactly one key"
    );
}

#[test]
fn rejects_empty_component() {
    let error = parse_shortcut("Ctrl++L").expect_err("empty shortcut component should fail");

    assert_eq!(
        error.to_string(),
        "hotkey shortcut contains an empty component"
    );
}

#[test]
fn rejects_unsupported_key() {
    let error =
        parse_shortcut("Ctrl+F13").expect_err("unsupported multi-character key should fail");

    assert_eq!(error.to_string(), "unsupported hotkey key: F13");
}

#[test]
fn trims_components_and_accepts_digits_and_aliases() {
    let registration = parse_shortcut("  control + Super +\t7 ").expect("shortcut should parse");

    assert_eq!(registration.modifiers, MOD_NOREPEAT | MOD_CONTROL | MOD_WIN);
    assert_eq!(registration.virtual_key, b'7' as u32);

    let registration = parse_shortcut("windows+x").expect("shortcut should parse");
    assert_eq!(registration.modifiers, MOD_NOREPEAT | MOD_WIN);
    assert_eq!(registration.virtual_key, b'X' as u32);
}

#[test]
fn key_alone_registers_with_norepeat_only() {
    let registration = parse_shortcut("q").expect("a key alone should parse");

    assert_eq!(registration.modifiers, MOD_NOREPEAT);
    assert_eq!(registration.virtual_key, b'Q' as u32);
}

#[test]
fn first_problem_wins_and_non_ascii_keys_are_refused() {
    assert_eq!(
        parse_shortcut("").expect_err("empty").to_string(),
        "hotkey shortcut contains an empty component"
    );
    assert_eq!(
        parse_shortcut("A+B+").expect_err("several keys come first").to_string(),
        "hotkey shortcut must contain exactly one key"
    );
    assert_eq!(
        parse_shortcut("Ctrl+é").expect_err("non-ASCII key").to_string(),
        "unsupported hotkey key: é"
    );
    assert_eq!(
        parse_shortcut("Ctrl+-").expect_err("punctuation key").to_string(),
        "unsupported hotkey key: -"
    );
}

#[test]
fn win32_errors_name_operation_and_code() {
    assert_eq!(
        HotkeyError::win32("RegisterHotKey", 1409).to_string(),
        "RegisterHotKey failed with Win32 error 1409"
    );
    assert_eq!(
        HotkeyError::win32("RegisterHotKey", 0).message(),
        "RegisterHotKey failed with Win32 error 0"
    );
    assert_eq!(
        HotkeyError::win32("X", u32::MAX).message(),
        "X failed with Win32 error 4294967295"
    );
}

#[test]
fn message_loop_reacts_only_to_its_hotkey() {
    assert!(is_hotkey_press(WM_HOTKEY, HOTKEY_ID as usize));
    assert!(!is_hotkey_press(WM_HOTKEY, 2));
    assert!(!is_hotkey_press(WM_QUIT, HOTKEY_ID as usize));
    assert!(message_loop_continues(1));
    assert!(!message_loop_continues(0));
    assert!(!message_loop_continues(-1));
}

#[test]
fn every_registration_carries_norepeat() {
    for shortcut in ["L", "Ctrl+L", "alt+shift+9", " win + control + z "] {
        let registration = parse_shortcut(shortcut).expect("shortcut should parse");
        assert_eq!(registration.modifiers & MOD_NOREPEAT, MOD_NOREPEAT);
    }
}

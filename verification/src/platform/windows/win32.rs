//! Win32 values the library's decisions depend on, and the common form of
//! the error a failed Win32 call gives.
use vstd::prelude::*;

use crate::text::{concat, decimal, push_decimal};

verus! {

/// `MOD_ALT` as windows-sys defines it.
pub open spec fn mod_alt() -> u32 {
    1
}

/// `MOD_CONTROL` as windows-sys defines it.
pub open spec fn mod_control() -> u32 {
    2
}

/// `MOD_SHIFT` as windows-sys defines it.
pub open spec fn mod_shift() -> u32 {
    4
}

/// `MOD_WIN` as windows-sys defines it.
pub open spec fn mod_win() -> u32 {
    8
}

/// `MOD_NOREPEAT` as windows-sys defines it.
pub open spec fn mod_norepeat() -> u32 {
    0x4000
}

/// Reads windows-sys's `MOD_ALT`, which its source defines as `1u32`.
#[verifier::external_body]
pub(crate) fn win32_mod_alt() -> (r: u32)
    ensures
        r == mod_alt(),
{
    windows_sys::Win32::UI::Input::KeyboardAndMouse::MOD_ALT
}

/// Reads windows-sys's `MOD_CONTROL`, which its source defines as `2u32`.
#[verifier::external_body]
pub(crate) fn win32_mod_control() -> (r: u32)
    ensures
        r == mod_control(),
{
    windows_sys::Win32::UI::Input::KeyboardAndMouse::MOD_CONTROL
}

/// Reads windows-sys's `MOD_SHIFT`, which its source defines as `4u32`.
#[verifier::external_body]
pub(crate) fn win32_mod_shift() -> (r: u32)
    ensures
        r == mod_shift(),
{
    windows_sys::Win32::UI::Input::KeyboardAndMouse::MOD_SHIFT
}

/// Reads windows-sys's `MOD_WIN`, which its source defines as `8u32`.
#[verifier::external_body]
pub(crate) fn win32_mod_win() -> (r: u32)
    ensures
        r == mod_win(),
{
    windows_sys::Win32::UI::Input::KeyboardAndMouse::MOD_WIN
}

/// Reads windows-sys's `MOD_NOREPEAT`, which its source defines as `16384u32`.
#[verifier::external_body]
pub(crate) fn win32_mod_norepeat() -> (r: u32)
    ensures
        r == mod_norepeat(),
{
    windows_sys::Win32::UI::Input::KeyboardAndMouse::MOD_NOREPEAT
}

/// The text of the error that a failed Win32 call gives: the operation's
/// name, then the error code in decimal.
pub open spec fn win32_failure_text(operation: Seq<char>, error: u32) -> Seq<char> {
    operation + " failed with Win32 error "@ + decimal(error as nat)
}

/// Builds the text of `win32_failure_text`.
pub fn win32_failure_message(operation: &str, error: u32) -> (r: String)
    ensures
        r@ == win32_failure_text(operation@, error),
{
    let mut message = concat(operation, " failed with Win32 error ");
    push_decimal(&mut message, error);
    message
}

/// `WM_HOTKEY` as windows-sys defines it.
pub open spec fn wm_hotkey() -> u32 {
    786
}

/// Reads windows-sys's `WM_HOTKEY`, which its source defines as `786u32`.
#[verifier::external_body]
pub(crate) fn win32_wm_hotkey() -> (r: u32)
    ensures
        r == wm_hotkey(),
{
    windows_sys::Win32::UI::WindowsAndMessaging::WM_HOTKEY
}

/// `ERROR_ALREADY_EXISTS` as windows-sys defines it.
pub open spec fn error_already_exists() -> u32 {
    183
}

/// Reads windows-sys's `ERROR_ALREADY_EXISTS`, which its source defines as
/// `183u32`.
#[verifier::external_body]
pub(crate) fn win32_error_already_exists() -> (r: u32)
    ensures
        r == error_already_exists(),
{
    windows_sys::Win32::Foundation::ERROR_ALREADY_EXISTS
}

} // verus!

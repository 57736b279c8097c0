//! Single-instance ownership: what the named mutex's creation means.
use vstd::prelude::*;

use super::win32::{
    error_already_exists, win32_error_already_exists, win32_failure_message, win32_failure_text,
};
use crate::text::owned;

pub use crate::text::wide_string;

verus! {

/// The named mutex whose owner is the resident instance.
pub const MUTEX_NAME: &'static str = "Local\\Latchnott";

/// The abstract value of a single-instance error.
pub struct SingleInstanceErrorView {
    pub message: Seq<char>,
    pub already_running: bool,
}

/// Why this process could not become the resident instance.
#[derive(Debug, Clone, PartialEq, Eq)]
pub struct SingleInstanceError {
    message: String,
    already_running: bool,
}

impl View for SingleInstanceError {
    type V = SingleInstanceErrorView;

    closed spec fn view(&self) -> SingleInstanceErrorView {
        SingleInstanceErrorView { message: self.message@, already_running: self.already_running }
    }
}

impl SingleInstanceError {
    /// An error with the given message, saying whether another instance
    /// runs.
    pub fn new(message: String, already_running: bool) -> (r: Self)
        ensures
            r@.message == message@,
            r@.already_running == already_running,
    {
        SingleInstanceError { message, already_running }
    }

    /// The error of a failed Win32 call; it does not mean another instance
    /// runs.
    pub fn win32(operation: &str, error: u32) -> (r: Self)
        ensures
            r@.message == win32_failure_text(operation@, error),
            !r@.already_running,
    {
        SingleInstanceError { message: win32_failure_message(operation, error), already_running: false }
    }

    /// Whether another instance already owns the mutex.
    pub fn is_already_running(&self) -> (r: bool)
        ensures
            r == self@.already_running,
    {
        self.already_running
    }

    /// The error's message.
    pub fn message(&self) -> (r: &str)
        ensures
            r@ == self@.message,
    {
        self.message.as_str()
    }

    /// The error's message, as its `Display` would write it.
    pub fn to_string(&self) -> (r: String)
        ensures
            r@ == self@.message,
    {
        owned(self.message.as_str())
    }
}

pub open spec fn already_running_text() -> Seq<char> {
    "another Latchnott instance is already running"@
}

/// What creating the named mutex means: no handle is a failure of
/// `CreateMutexW`; a handle to a mutex that already existed means another
/// instance runs (the caller closes that handle); otherwise this process
/// owns the mutex.
pub fn acquisition_outcome(handle_is_null: bool, last_error: u32) -> (r: Result<
    (),
    SingleInstanceError,
>)
    ensures
        handle_is_null ==> (r matches Err(e) && e@.message == win32_failure_text(
            "CreateMutexW"@,
            last_error,
        ) && !e@.already_running),
        !handle_is_null && last_error == error_already_exists() ==> (r matches Err(e)
            && e@.message == already_running_text() && e@.already_running),
        !handle_is_null && last_error != error_already_exists() ==> r is Ok,
{
    if handle_is_null {
        return Err(SingleInstanceError::win32("CreateMutexW", last_error));
    }
    if last_error == win32_error_already_exists() {
        return Err(
            SingleInstanceError::new(owned("another Latchnott instance is already running"), true),
        );
    }
    Ok(())
}

} // verus!

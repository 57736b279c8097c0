//! Errors of the platform runtime (hotkey, IPC server and their threads).
use vstd::prelude::*;

use super::hotkey::HotkeyError;
use super::ipc::IpcError;
use crate::text::owned;

verus! {

/// Why the platform runtime could not start.
#[derive(Debug)]
pub enum PlatformRuntimeError {
    Hotkey(HotkeyError),
    Ipc(IpcError),
    Thread(String),
}

impl PlatformRuntimeError {
    /// The message of the error, as its `Display` writes it: the wrapped
    /// error's own message.
    pub fn to_string(&self) -> (r: String)
        ensures
            r@ == match self {
                PlatformRuntimeError::Hotkey(e) => e@,
                PlatformRuntimeError::Ipc(e) => e@,
                PlatformRuntimeError::Thread(m) => m@,
            },
    {
        match self {
            PlatformRuntimeError::Hotkey(error) => error.to_string(),
            PlatformRuntimeError::Ipc(error) => error.to_string(),
            PlatformRuntimeError::Thread(message) => owned(message.as_str()),
        }
    }
}

impl From<HotkeyError> for PlatformRuntimeError {
    fn from(error: HotkeyError) -> (r: Self) {
        PlatformRuntimeError::Hotkey(error)
    }
}

impl vstd::std_specs::convert::FromSpecImpl<HotkeyError> for PlatformRuntimeError {
    open spec fn obeys_from_spec() -> bool {
        true
    }

    open spec fn from_spec(error: HotkeyError) -> Self {
        PlatformRuntimeError::Hotkey(error)
    }
}

impl From<IpcError> for PlatformRuntimeError {
    fn from(error: IpcError) -> (r: Self) {
        PlatformRuntimeError::Ipc(error)
    }
}

impl vstd::std_specs::convert::FromSpecImpl<IpcError> for PlatformRuntimeError {
    open spec fn obeys_from_spec() -> bool {
        true
    }

    open spec fn from_spec(error: IpcError) -> Self {
        PlatformRuntimeError::Ipc(error)
    }
}

} // verus!

pub mod autostart;
pub mod hotkey;
pub mod ipc;
pub mod runtime;
pub mod single_instance;
pub mod win32;

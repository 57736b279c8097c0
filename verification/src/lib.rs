pub mod platform;
pub mod text;
pub mod paths;
pub mod configuration;
pub mod domain;
pub mod storage;
pub mod application;
pub mod logging;
pub mod gui;

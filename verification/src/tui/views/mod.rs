//! The two screens of the terminal control panel.
pub mod log;
pub mod main;

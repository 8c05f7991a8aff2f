//! Logic of a Discord bot: log entries and their rendering, terminal control
//! panel state machines, database decision flows and command texts.
pub mod bot;
pub mod clock;
pub mod commands;
pub mod control_panel;
pub mod db;
pub mod embed;
pub mod events;
pub mod keys;
pub mod logger;
pub mod message_log;
pub mod paint;
pub mod sticky;
pub mod text;
pub mod tui;
pub mod views;

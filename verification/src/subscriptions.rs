//! Event sources, reduced to the decisions they make on the values they read.

pub mod airplane_mode;
pub mod polkit_agent_helper;
pub mod polkit_agent;
pub mod dbus;
pub mod keyboard;
pub mod pulse;
pub mod settings_daemon;

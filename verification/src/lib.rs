//! Decision logic of a desktop on-screen-display daemon: the polkit
//! authentication agent bridge and the indicator bookkeeping around it.
//!
//! Every function here is verified; the process, bus and window plumbing that
//! drives it lives outside this library and exchanges plain values with it.

pub mod subscriptions;
pub mod components;
pub mod config;

//! The per-surface state machines and the bookkeeping that ties them together.

pub mod polkit_dialog;
pub mod dialogs;
pub mod app;
pub mod osd_indicator;
pub mod identifiers;
pub mod displays;
pub mod tasks;

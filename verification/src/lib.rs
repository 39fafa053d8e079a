//! Core of a small desktop to-do shell: the task record, the registry of the
//! application's singleton windows, and the dispatcher that turns tray, menu
//! and hotkey events into window operations.

pub mod clock;
pub mod task;
pub mod commands;
pub mod window;
pub mod operation;
pub mod dispatch;

//! Notification daemon core: the notification models, the rules by which
//! notifications arrive, expire and are dismissed, and the decisions behind
//! the D-Bus interfaces and the on-screen list.
pub mod dbus;
pub mod models;
pub mod notify_handler;
pub mod ui;

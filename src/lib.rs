//! The logic of the nchat desktop shell: the update lifecycle (checks,
//! download progress, install outcome, the events sent to the user interface)
//! and the routing of deep links, tray, menu and shortcut events to window
//! actions. Platform calls are left to the host.

pub mod actions;
pub mod commands;
pub mod deeplink;
pub mod download;
pub mod lifecycle;
pub mod menu;
pub mod metadata;
pub mod notifications;
pub mod shortcuts;
pub mod text;
pub mod tracker;
pub mod tray;
pub mod updater;

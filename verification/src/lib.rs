//! Host-side logic of a minimal desktop browser shell.
//!
//! The shell shows web-style content in one native window and serves it in
//! two ways: it keeps the profile (tabs, active tab, bookmarks, history) in a
//! JSON file, and it downloads files. This library holds the decisions; the
//! program around it owns the window, the files, the dialog and the network.
//!
//! - [`json`]: JSON documents, read and written by `serde_json`.
//! - [`profile`]: the profile store.
//! - [`bootstrap`]: the script that hands the profile to the content.
//! - [`ipc`]: the dispatcher of the content's messages.
//! - [`download`]: one download, step by step.

pub mod bootstrap;
pub mod download;
pub mod ipc;
pub mod json;
pub mod profile;

//! Zenith browser core: URL handling, tab bookkeeping, IPC message decoding
//! and the script payloads sent to web views.

pub mod text;
pub mod url_parts;
pub mod encoding;
pub mod urls;
pub mod config;
pub mod ipc;
pub mod tab;
pub mod ui_handler;
pub mod browser;
pub mod suggestions;
pub mod scripts;
pub mod layout;
pub mod downloads;
pub mod laws;

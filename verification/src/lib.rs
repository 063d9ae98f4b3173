//! Core logic of a clipboard companion: change detection for the system
//! clipboard, the signed-in user cache, the sign-in pages and URLs, the
//! per-device key records and the tray menu behaviour.
//!
//! The I/O around it (clipboard access, files, the keyring, the web server,
//! the window toolkit, the clock and the host name) lives in the application
//! crate, which hands what it reads to the functions here.

pub mod clipboard;
pub mod session;
pub mod auth;
pub mod keys;
pub mod tray;

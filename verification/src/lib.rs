//! Host-side core of a desktop application: choosing the backend's port,
//! supervising the backend worker process, and managing the single global
//! keyboard shortcut that toggles recording.
//!
//! Everything here works on plain values. The surrounding program performs
//! the operating-system work (sockets, processes, shortcut registration,
//! the settings file) and reports each outcome back.

pub mod port;
pub mod text;
pub mod keys;
pub mod binding;
pub mod supervisor;
pub mod hotkey;
pub mod exchange;

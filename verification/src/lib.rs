//! Core logic of a multi-platform application-packaging CLI (a cargo
//! subcommand): target-triple classification, Android manifest generation,
//! environment-file parsing, device-list parsing, and the pure planning
//! behind each per-platform build pipeline. All file-system work, process
//! spawning and front-end argument handling live outside this library and
//! consume the plans and strings computed here.

pub mod strutil;
pub mod platform;
pub mod error;
pub mod metadata;
pub mod android;
pub mod scaffold;
pub mod helper;
pub mod devices;
pub mod linux;
pub mod macos;
pub mod ios;
pub mod windows;

//! Discovery and normalization of desktop launcher entries.
//!
//! The library validates and normalizes desktop entry files into
//! [`entry::DesktopEntry`] records, builds namespaced identifiers for files
//! found while walking application directories, deduplicates records by
//! identifier (first seen wins), resolves which terminal emulator to prefix
//! terminal-mode commands with, and renders the final `NAME=EXEC` output
//! lines. Directory walking and environment access are left to the caller,
//! which hands the library plain values (file names, file bytes, probe
//! results).

pub mod dedup;
pub mod entry;
pub mod fields;
pub mod output;
pub mod parse;
pub mod roots;
pub mod terminal;
pub mod text;
pub mod walk;

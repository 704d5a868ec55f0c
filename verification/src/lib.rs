//! Typed access to the historicized Swiss registry of administrative
//! divisions (cantons, districts, municipalities).
//!
//! The registry is published as a zip archive of tab-delimited text tables in
//! a legacy single-byte encoding. This crate locates the right member inside
//! the archive, transcodes it, parses the rows into typed records with their
//! admission and abolition mutation history, and exposes helpers for caching
//! the downloaded archive on disk.

pub mod chars;
pub mod date;
pub mod fso;
pub mod tools;
pub mod tsv;

pub use date::Date;

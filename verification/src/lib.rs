//! Profiles of toolchain environment variables and the shell `export`
//! statements that apply them.
//!
//! A profile stores the *parts* of each variable one by one. Exporting a
//! profile groups the parts by variable, joins each group with the variable's
//! separator and renders one `export` statement per variable that combines
//! the joined value with whatever the invoking shell already holds.
//!
//! - [`config`] holds the entry model: parts, profiles, custom variables and
//!   catalog items.
//! - [`export`] holds the engine: quoting, aggregation and rendering.
//! - [`store`] turns items and custom variables into the rows of a store and
//!   back.
//! - [`tui`] holds the state of the interactive browser and what its keys
//!   do; [`profile_editor`] holds its two smallest dialogs.
//! - [`text`] holds the text helpers that the rest is built on.
//!
//! The library reads no file, no key and no environment, and writes nowhere:
//! its functions take plain values and give plain values back. Every
//! executable function carries a contract over the mathematical model of its
//! arguments. A handful of small functions that call into the standard
//! library or the JSON library are trusted to meet theirs; all others are
//! proved to, and proved not to panic.

pub mod config;
pub mod export;
pub mod profile_editor;
pub mod store;
pub mod text;
pub mod tui;

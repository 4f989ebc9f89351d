//! Interactive fuzzy-search terminal component.
//!
//! Given a list of labeled items, the finder renders an incrementally
//! filtered, scrollable candidate list, lets the user narrow results by
//! typing and navigate with the arrow keys, and hands the selected payload
//! back to the caller.  The crate also holds the script-parsing model that
//! produces the items: shell scripts, their header comments and their
//! functions.

pub mod decoder;
pub mod item;
pub mod list;
pub mod matcher;
pub mod ranking;
pub mod finder;
pub mod strutil;
pub mod term;
pub mod render;
pub mod executables;
pub mod script;
pub mod bash_file;
pub mod config;

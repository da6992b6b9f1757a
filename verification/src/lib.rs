//! A small line-oriented text search library.
//!
//! Given a regular-expression pattern and a body of text, the library
//! returns every line of the text in which the pattern finds a match,
//! optionally case-insensitively.  Line splitting, filtering and
//! configuration building are verified; only the regular-expression
//! engine itself is called through trusted wrappers.

pub mod config;
pub mod lines;
pub mod pattern;
pub mod search;

pub use config::{usage, Config, ConfigError};
pub use lines::split_lines_exec;
pub use pattern::{pattern_matches, pattern_ok};
pub use search::{
    run, search, search_case_insensitive, try_search, try_search_case_insensitive, SearchError,
};

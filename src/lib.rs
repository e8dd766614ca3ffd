//! A browser model for SQL files: the session that tracks the directory shown,
//! the selected file, a path search, and the canonical formatting of the
//! selected file with a line diff against its original text.
pub mod app;
pub mod diff;
pub mod search;
pub mod sql;
mod text;

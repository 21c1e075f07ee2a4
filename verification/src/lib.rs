//! Per-language statistics of source code: lines, code, comments, blanks and
//! the extent of function bodies.
//!
//! The crate holds the decisions of the counter and proves them with Verus:
//!
//! - `syntax` classifies single lines, tracks the extent of function bodies
//!   and scans the text of one file;
//! - `langs` holds the rules of the languages and finds a language by a file
//!   extension;
//! - `counter` counts one file from its path and its bytes;
//! - `stats` and `report` hold the records of files and languages and merge
//!   them, and state that the merge does not depend on the order of the files;
//! - `fc` says what each of the two pipelines does with the results of
//!   counting, and states that both give the same totals;
//! - `walker` decides which paths of a walk are descended into and yielded;
//! - `saver` and `utils` write a report out as JSON and CSV;
//! - `parser`, `cli` and `config` read the settings from a command line, and
//!   `ffi` from a foreign caller.
//!
//! Reading files, walking directories and running threads or tasks is left to
//! the program that uses the crate.

pub mod cli;
pub mod config;
pub mod counter;
pub mod fc;
pub mod ffi;
pub mod langs;
pub mod parser;
pub mod report;
pub mod saver;
pub mod stats;
pub mod syntax;
pub mod utils;
pub mod walker;

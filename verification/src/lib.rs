//! The logic of a command-line client for the Open Food Facts API: which
//! requests the commands make, how answers are checked and turned into
//! results, and how `--fields` trims what is printed.

pub mod cli;
pub mod client;
pub mod commands;
pub mod error;
pub mod json;
pub mod output;
pub mod text;

//! The command line, as plain data.
use vstd::prelude::*;

verus! {

/// A subcommand.
#[derive(Debug, Clone)]
pub enum Commands {
    /// Writes a starter configuration into `dir` (the default location when absent).
    Init { dir: Option<String> },
}

/// The parsed command line.
#[derive(Debug, Clone)]
pub struct Config {
    pub command: Option<Commands>,
    /// The script to run.
    pub file: Option<String>,
    pub main_path: Option<String>,
    /// Present every window plainly, without shell placement.
    pub windowed: bool,
}

} // verus!

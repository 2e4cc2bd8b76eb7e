//! The command-line surface: the root flags and the two subcommands. The
//! process edge parses the real command line into these values.

use vstd::prelude::*;
use crate::wrappers::flatc::Language;

verus! {

/// The root invocation: an optional subcommand, an optional configuration
/// file path, and the force-update, verbosity and cache-clean switches.
#[derive(Debug)]
pub struct Args {
    pub command: Option<Commands>,
    pub config: Option<String>,
    pub update: bool,
    pub verbose: bool,
    pub clean: bool,
}

/// The subcommands: dump one region's game data, or generate code from a
/// FlatBuffers schema.
#[derive(Debug)]
pub enum Commands {
    Dump { target: DumpTarget },
    Generate { fbs: String, language: Language, output: String },
}

/// Which region's artifacts a dump works on.
#[derive(Debug)]
pub enum DumpTarget {
    Global { output: String },
    Japan { output: String },
}

} // verus!

//! The command-line surface as plain data: the subcommand selected by the
//! user, free of any argument-parsing machinery.

use vstd::prelude::*;

verus! {

/// The available subcommands.
#[derive(Debug)]
pub enum Subcommands {
    /// Verify all exercises in the recommended order.
    Verify,
    /// Rerun verification when files change.
    Watch,
    /// Verify a single exercise by name.
    Run { name: String },
}

/// The parsed command line: the chosen subcommand, if any was given.
#[derive(Debug)]
pub struct Args {
    pub command: Option<Subcommands>,
}

} // verus!

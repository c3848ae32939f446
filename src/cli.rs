//! Command-line commands of the application.
use vstd::prelude::*;

verus! {

/// A subcommand.
#[derive(PartialEq, Eq, Structural, Clone, Copy, Debug)]
pub enum Commands {
    /// Start the sniper.
    Start,
    /// Show wallet information.
    Wallet,
}

/// Parsed command line.
#[derive(PartialEq, Eq, Structural, Clone, Copy, Debug)]
pub struct Cli {
    pub command: Commands,
}

} // verus!

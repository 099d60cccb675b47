//! The command-line surface, as plain values.
use vstd::prelude::*;

verus! {

/// What was asked on the command line.
#[derive(Debug)]
pub struct Args {
    /// The query to run.
    pub sql: Option<String>,
    /// Repository paths; each one's rows are loaded into the same store.
    pub repo: Vec<String>,
    pub format: OutputFormat,
    /// Omit the header row (table and CSV output).
    pub no_header: bool,
    pub quiet: bool,
    /// Print timing and row counts.
    pub verbose: bool,
    pub command: Option<Command>,
}

/// A subcommand other than running a query.
#[derive(Debug)]
pub enum Command {
    /// List all available tables.
    Tables,
    /// Show one table's schema, or all of them.
    Schema { table: Option<String> },
    /// Show example queries.
    Examples,
}

/// How results are written.
#[derive(Clone, Copy, Debug, PartialEq, Eq, Structural)]
pub enum OutputFormat {
    Table,
    Json,
    Jsonl,
    Csv,
}

impl Default for OutputFormat {
    fn default() -> (r: Self)
        ensures
            r == OutputFormat::Table,
    {
        OutputFormat::Table
    }
}

} // verus!

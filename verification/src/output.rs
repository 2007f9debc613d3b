//! How results are shown.

use vstd::prelude::*;

verus! {

/// The format of a command's output.
#[derive(Debug, Clone, Copy, PartialEq, Eq, Structural)]
pub enum OutputFormat {
    /// Formatted tables.
    Table,
    /// Raw JSON.
    Json,
}

impl Default for OutputFormat {
    /// Tables, unless JSON is asked for.
    fn default() -> (format: OutputFormat)
        ensures
            format == OutputFormat::Table,
    {
        OutputFormat::Table
    }
}

impl OutputFormat {
    /// Whether the output is raw JSON.
    pub fn is_json(&self) -> (json: bool)
        ensures
            json == (*self == OutputFormat::Json),
    {
        match self {
            OutputFormat::Json => true,
            OutputFormat::Table => false,
        }
    }
}

} // verus!

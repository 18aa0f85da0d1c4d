//! Options and output format tag of the CSV conversion command.

use vstd::prelude::*;

use crate::cli::eq_ignore_ascii_case;
use crate::cli::spec_lower;
use crate::errors::Error;

verus! {

/// The structured formats a CSV file can be converted to.
#[derive(Debug, Clone, Copy, PartialEq, Eq, Structural)]
pub enum OutputFormat {
    Json,
    Yaml,
}

/// Options of the CSV conversion command.
#[derive(Debug, Clone)]
pub struct CsvOpts {
    pub input: String,
    pub output: Option<String>,
    pub format: OutputFormat,
    pub delimiter: char,
    pub header: bool,
}

impl OutputFormat {
    /// The canonical tag of the format.
    pub fn text(&self) -> (r: &'static str)
        ensures
            r@ == self.spec_text(),
    {
        match self {
            OutputFormat::Json => "json",
            OutputFormat::Yaml => "yaml",
        }
    }

    /// What `text` returns for each format.
    pub open spec fn spec_text(&self) -> Seq<char> {
        match self {
            OutputFormat::Json => "json"@,
            OutputFormat::Yaml => "yaml"@,
        }
    }
}

/// What `parser_format` returns: the format whose tag the input matches
/// up to ASCII case, or `UnsupportedScheme`.
pub open spec fn spec_parser_format(s: Seq<char>) -> Result<OutputFormat, Error> {
    if spec_lower(s) == "json"@ {
        Ok(OutputFormat::Json)
    } else if spec_lower(s) == "yaml"@ {
        Ok(OutputFormat::Yaml)
    } else {
        Err(Error::UnsupportedScheme)
    }
}

/// Parses an output format tag, case-insensitively.
pub fn parser_format(s: &str) -> (r: Result<OutputFormat, Error>)
    ensures
        r == spec_parser_format(s@),
{
    proof {
        reveal_strlit("json");
        reveal_strlit("yaml");
        crate::cli::lemma_lower_id("json"@);
        crate::cli::lemma_lower_id("yaml"@);
    }
    if eq_ignore_ascii_case(s, "json") {
        Ok(OutputFormat::Json)
    } else if eq_ignore_ascii_case(s, "yaml") {
        Ok(OutputFormat::Yaml)
    } else {
        Err(Error::UnsupportedScheme)
    }
}

} // verus!

//! The CSV command: convert a table to another format.

use crate::error::TextError;
use crate::utils::{lowercase_of, str_equal, to_lowercase};
use vstd::prelude::*;
use vstd::string::*;

verus! {

/// The formats that a table can be converted to.
#[derive(Debug, Clone, Copy, PartialEq, Eq, Structural)]
pub enum OutputFormat {
    Json,
    Yaml,
}

/// The format that a lower-case name stands for.
pub open spec fn output_format_named(name: Seq<char>) -> Result<OutputFormat, TextError> {
    if name == "json"@ {
        Ok(OutputFormat::Json)
    } else if name == "yaml"@ {
        Ok(OutputFormat::Yaml)
    } else {
        Err(TextError::UnknownFormat)
    }
}

/// The name of a format, which is also the extension of its files.
pub open spec fn output_format_name(format: OutputFormat) -> &'static str {
    match format {
        OutputFormat::Json => "json",
        OutputFormat::Yaml => "yaml",
    }
}

impl OutputFormat {
    /// The format that the lower-case `name` stands for.
    pub fn from_name(name: &str) -> (r: Result<Self, TextError>)
        ensures
            r == output_format_named(name@),
    {
        if str_equal(name, "json") {
            Ok(OutputFormat::Json)
        } else if str_equal(name, "yaml") {
            Ok(OutputFormat::Yaml)
        } else {
            Err(TextError::UnknownFormat)
        }
    }

    /// The name of the format, which `from_name` reads back.
    pub fn name(self) -> (r: &'static str)
        ensures
            r == output_format_name(self),
            output_format_named(r@) == Ok::<OutputFormat, TextError>(self),
    {
        proof {
            lemma_output_format_name_round_trip(self);
        }
        match self {
            OutputFormat::Json => "json",
            OutputFormat::Yaml => "yaml",
        }
    }
}

/// The name of a format stands for that format.
pub proof fn lemma_output_format_name_round_trip(format: OutputFormat)
    ensures
        output_format_named(output_format_name(format)@) == Ok::<OutputFormat, TextError>(format),
{
    reveal_strlit("json");
    reveal_strlit("yaml");
    if format == OutputFormat::Yaml {
        assert("yaml"@[0] != "json"@[0]);
    }
}

/// Reads a format from a word of the command line, in any case of letters.
pub fn parse_format(format: &str) -> (r: Result<OutputFormat, TextError>)
    ensures
        r == output_format_named(lowercase_of(format@)),
{
    let lower = to_lowercase(format);
    OutputFormat::from_name(lower.as_str())
}

impl std::str::FromStr for OutputFormat {
    type Err = TextError;

    /// Reads a format from a word, in any case of letters: the one that the
    /// word's lower-case form names, or the refusal of a word that names
    /// none.
    fn from_str(s: &str) -> (r: Result<Self, TextError>)
        ensures
            r == output_format_named(lowercase_of(s@)),
    {
        parse_format(s)
    }
}

impl From<OutputFormat> for &'static str {
    fn from(value: OutputFormat) -> (r: Self) {
        value.name()
    }
}

impl vstd::std_specs::convert::FromSpecImpl<OutputFormat> for &'static str {
    open spec fn obeys_from_spec() -> bool {
        true
    }

    open spec fn from_spec(value: OutputFormat) -> Self {
        output_format_name(value)
    }
}

/// Convert a CSV file.
#[derive(Debug, Clone)]
pub struct CsvOpts {
    /// The path of the table.
    pub input: String,
    /// The path of the result, where one is given.
    pub output: Option<String>,
    pub format: OutputFormat,
    pub delimiter: char,
    pub header: bool,
}

impl CsvOpts {
    /// The path that the result goes to.
    pub open spec fn output_path_spec(&self) -> Seq<char> {
        match self.output {
            Some(path) => path@,
            None => "output."@ + output_format_name(self.format)@,
        }
    }

    /// The path that the result goes to: the one given, or `output` with
    /// the format's extension.
    pub fn output_path(&self) -> (path: String)
        ensures
            path@ == self.output_path_spec(),
    {
        match &self.output {
            Some(path) => path.clone(),
            None => String::from_str("output.").concat(self.format.name()),
        }
    }
}

} // verus!

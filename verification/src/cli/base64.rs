//! The base64 commands: encode and decode.

use crate::error::TextError;
use crate::utils::{lowercase_of, str_equal, to_lowercase};
use vstd::prelude::*;

verus! {

/// The two base64 dialects on offer.
#[derive(Debug, Clone, Copy, PartialEq, Eq, Structural)]
pub enum Base64Format {
    /// The standard alphabet, padded with `=`.
    Standard,
    /// The URL-safe alphabet, without padding.
    UrlSafe,
}

/// The dialect that a lower-case name stands for.
pub open spec fn base64_format_named(name: Seq<char>) -> Result<Base64Format, TextError> {
    if name == "standard"@ {
        Ok(Base64Format::Standard)
    } else if name == "urlsafe"@ {
        Ok(Base64Format::UrlSafe)
    } else {
        Err(TextError::UnknownFormat)
    }
}

/// The name of a dialect.
pub open spec fn base64_format_name(format: Base64Format) -> &'static str {
    match format {
        Base64Format::Standard => "standard",
        Base64Format::UrlSafe => "urlsafe",
    }
}

impl Base64Format {
    /// The dialect that the lower-case `name` stands for.
    pub fn from_name(name: &str) -> (r: Result<Self, TextError>)
        ensures
            r == base64_format_named(name@),
    {
        if str_equal(name, "standard") {
            Ok(Base64Format::Standard)
        } else if str_equal(name, "urlsafe") {
            Ok(Base64Format::UrlSafe)
        } else {
            Err(TextError::UnknownFormat)
        }
    }

    /// The name of the dialect, which `from_name` reads back.
    pub fn name(self) -> (r: &'static str)
        ensures
            r == base64_format_name(self),
            base64_format_named(r@) == Ok::<Base64Format, TextError>(self),
    {
        proof {
            lemma_base64_format_name_round_trip(self);
        }
        match self {
            Base64Format::Standard => "standard",
            Base64Format::UrlSafe => "urlsafe",
        }
    }
}

/// The name of a dialect stands for that dialect.
pub proof fn lemma_base64_format_name_round_trip(format: Base64Format)
    ensures
        base64_format_named(base64_format_name(format)@) == Ok::<Base64Format, TextError>(format),
{
    reveal_strlit("standard");
    reveal_strlit("urlsafe");
    if format == Base64Format::UrlSafe {
        assert("urlsafe"@.len() != "standard"@.len());
    }
}

/// Reads a dialect from a word of the command line, in any case of letters.
pub fn parse_base64_format(value: &str) -> (r: Result<Base64Format, TextError>)
    ensures
        r == base64_format_named(lowercase_of(value@)),
{
    let lower = to_lowercase(value);
    Base64Format::from_name(lower.as_str())
}

impl std::str::FromStr for Base64Format {
    type Err = TextError;

    /// Reads a dialect from a word, in any case of letters: the one that the
    /// word's lower-case form names, or the refusal of a word that names
    /// none.
    fn from_str(s: &str) -> (r: Result<Self, TextError>)
        ensures
            r == base64_format_named(lowercase_of(s@)),
    {
        parse_base64_format(s)
    }
}

impl From<Base64Format> for &'static str {
    fn from(value: Base64Format) -> (r: Self) {
        value.name()
    }
}

impl vstd::std_specs::convert::FromSpecImpl<Base64Format> for &'static str {
    open spec fn obeys_from_spec() -> bool {
        true
    }

    open spec fn from_spec(value: Base64Format) -> Self {
        base64_format_name(value)
    }
}

/// Encode an input.
#[derive(Debug, Clone)]
pub struct Base64EncodeOpts {
    /// Where the input comes from: a path, or `-` for standard input.
    pub input: String,
    pub format: Base64Format,
}

/// Decode an input.
#[derive(Debug, Clone)]
pub struct Base64DecodeOpts {
    /// Where the input comes from: a path, or `-` for standard input.
    pub input: String,
    pub format: Base64Format,
}

/// The base64 commands.
#[derive(Debug, Clone)]
pub enum Base64SubCommand {
    Encode(Base64EncodeOpts),
    Decode(Base64DecodeOpts),
}

} // verus!

//! The commands that the library serves, as plain values.

pub mod base64;
pub mod csv;
pub mod gen_pass;
pub mod http;
pub mod jwt;
pub mod text;

use crate::cli::base64::Base64SubCommand;
use crate::cli::csv::CsvOpts;
use crate::cli::gen_pass::GenPassOpts;
use crate::cli::http::HttpSubCommand;
use crate::cli::text::TextSubCommand;
use crate::error::TextError;
use crate::utils::{input_source, input_source_spec, InputSource};
use vstd::prelude::*;

verus! {

/// What the command line asks for.
#[derive(Debug, Clone)]
pub struct Opts {
    pub command: SubCommand,
}

/// The commands.
#[derive(Debug, Clone)]
pub enum SubCommand {
    Csv(CsvOpts),
    GenPass(GenPassOpts),
    Base64(Base64SubCommand),
    Text(TextSubCommand),
    Http(HttpSubCommand),
}

/// Accepts the name of an input: `-`, which stands for standard input, or
/// the path of a file, of which `exists` says whether it is there.
pub fn verify_file(filepath: &str, exists: bool) -> (r: Result<String, TextError>)
    ensures
        match r {
            Ok(name) => (input_source_spec(filepath@) == InputSource::StandardInput || exists)
                && name@ == filepath@,
            Err(e) => !(input_source_spec(filepath@) == InputSource::StandardInput || exists) && e
                == TextError::NotFound,
        },
{
    if input_source(filepath) == InputSource::StandardInput || exists {
        Ok(filepath.to_owned())
    } else {
        Err(TextError::NotFound)
    }
}

/// Accepts the path of a directory, of which `is_dir` says whether it is
/// there and is one.
pub fn verify_path(path: &str, is_dir: bool) -> (r: Result<String, TextError>)
    ensures
        match r {
            Ok(name) => is_dir && name@ == path@,
            Err(e) => !is_dir && e == TextError::NotFound,
        },
{
    if is_dir {
        Ok(path.to_owned())
    } else {
        Err(TextError::NotFound)
    }
}

} // verus!

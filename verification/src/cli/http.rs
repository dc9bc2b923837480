//! The HTTP command: serve a directory.

use vstd::prelude::*;

verus! {

/// Serve the files below a directory.
#[derive(Debug, Clone)]
pub struct ServeOpts {
    /// The directory to serve.
    pub dir: String,
    pub port: u16,
}

/// The HTTP commands.
#[derive(Debug, Clone)]
pub enum HttpSubCommand {
    Serve(ServeOpts),
}

} // verus!

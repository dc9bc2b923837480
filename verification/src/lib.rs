//! A toolkit of small utilities on bytes and text: signing, verifying and
//! authenticated encryption with the keys that feed them, base64, random
//! passwords, tables of comma-separated values, token claims and the pages
//! of a file server. Nothing here reads a file or writes one: every
//! function takes what a source held and hands back what is to be shown or
//! stored.

pub mod cli;
pub mod error;
pub mod process;
pub mod utils;

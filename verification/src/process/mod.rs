//! The work behind each command.

pub mod base64;
pub mod csv;
pub mod gen_pass;
pub mod http;
pub mod jwt;
pub mod text;

//! The password command.

use crate::error::TextError;
use crate::process::gen_pass::{can_generate, is_password, process_gen_pass};
use vstd::prelude::*;
use vstd::utf8::*;

verus! {

/// Make a password.
#[derive(Debug, Clone, Copy)]
pub struct GenPassOpts {
    pub length: u8,
    pub uppercase: bool,
    pub lowercase: bool,
    pub number: bool,
    pub symbol: bool,
}

impl GenPassOpts {
    /// Whether a password can be made as asked.
    pub open spec fn can_generate_spec(&self) -> bool {
        can_generate(self.length, self.lowercase, self.uppercase, self.number, self.symbol)
    }

    /// Whether a password can be made as asked: the length has a place for
    /// a character of each chosen class, and a class is chosen unless the
    /// length is zero.
    pub fn can_generate(&self) -> (r: bool)
        ensures
            r == self.can_generate_spec(),
    {
        let mut classes: u8 = 0;
        if self.lowercase {
            classes = classes + 1;
        }
        if self.uppercase {
            classes = classes + 1;
        }
        if self.number {
            classes = classes + 1;
        }
        if self.symbol {
            classes = classes + 1;
        }
        classes <= self.length && (self.length == 0 || classes > 0)
    }

    /// Makes the password, or says that none can be made as asked.
    pub fn generate(&self) -> (r: Result<String, TextError>)
        ensures
            match r {
                Ok(password) => self.can_generate_spec() && is_password(
                    encode_utf8(password@),
                    self.length,
                    self.lowercase,
                    self.uppercase,
                    self.number,
                    self.symbol,
                ),
                Err(e) => !self.can_generate_spec() && e == TextError::PasswordLength,
            },
    {
        if !self.can_generate() {
            return Err(TextError::PasswordLength);
        }
        process_gen_pass(self.length, self.lowercase, self.uppercase, self.number, self.symbol)
    }
}

} // verus!

//! The failures that the library reports.

use crate::cli::text::TextSignFormat;
use vstd::prelude::*;

verus! {

/// A capability that an algorithm family may or may not offer.
#[derive(Debug, Clone, Copy, PartialEq, Eq, Structural)]
pub enum Operation {
    Sign,
    Verify,
    Generate,
    Encrypt,
    Decrypt,
}

/// The name of an operation.
pub open spec fn operation_name(operation: Operation) -> &'static str {
    match operation {
        Operation::Sign => "sign",
        Operation::Verify => "verify",
        Operation::Generate => "generate",
        Operation::Encrypt => "encrypt",
        Operation::Decrypt => "decrypt",
    }
}

impl Operation {
    /// The name of the operation.
    pub fn name(self) -> (r: &'static str)
        ensures
            r == operation_name(self),
    {
        match self {
            Operation::Sign => "sign",
            Operation::Verify => "verify",
            Operation::Generate => "generate",
            Operation::Encrypt => "encrypt",
            Operation::Decrypt => "decrypt",
        }
    }
}

/// Why an operation did not produce a result.
#[derive(Debug, Clone, Copy, PartialEq, Eq, Structural)]
pub enum TextError {
    /// The key bytes do not have the length that the algorithm asks for.
    KeyLength { expected: usize, actual: usize },
    /// A supplied signature, ciphertext or plaintext is not the text it has to be.
    Decode,
    /// A public key that is no curve point, a ciphertext that does not
    /// authenticate, or a message that the cipher cannot take.
    Crypto,
    /// The algorithm family does not offer the operation.
    UnsupportedOperation { format: TextSignFormat, operation: Operation },
    /// A word that names no known format.
    UnknownFormat,
    /// The input is too long to be turned into text.
    TooLong,
    /// A file or a directory that a command names is not there.
    NotFound,
    /// A password has no place for a character of each chosen class, or no
    /// class to draw on.
    PasswordLength,
    /// A point in time that lies beyond what a timestamp can hold.
    Expiry,
    /// The input is no table of comma-separated values.
    Table,
    /// The serialiser refused the table.
    Serialize,
}

/// Whether the algorithm family `format` offers `operation`.
pub open spec fn supports(format: TextSignFormat, operation: Operation) -> bool {
    match (format, operation) {
        (TextSignFormat::Blake3, Operation::Sign) => true,
        (TextSignFormat::Blake3, Operation::Verify) => true,
        (TextSignFormat::Blake3, Operation::Generate) => true,
        (TextSignFormat::Ed25519, Operation::Sign) => true,
        (TextSignFormat::Ed25519, Operation::Verify) => true,
        (TextSignFormat::Ed25519, Operation::Generate) => true,
        (TextSignFormat::ChaCha20Poly1305, Operation::Generate) => true,
        (TextSignFormat::ChaCha20Poly1305, Operation::Encrypt) => true,
        (TextSignFormat::ChaCha20Poly1305, Operation::Decrypt) => true,
        _ => false,
    }
}

} // verus!

verus! {

/// Refuses an operation that the algorithm family does not offer, naming
/// both.
pub fn check_supported(format: TextSignFormat, operation: Operation) -> (r: Result<(), TextError>)
    ensures
        supports(format, operation) ==> r is Ok,
        !supports(format, operation) ==> r == Err::<(), TextError>(
            TextError::UnsupportedOperation { format, operation },
        ),
{
    let offered = match format {
        TextSignFormat::Blake3 | TextSignFormat::Ed25519 => match operation {
            Operation::Sign | Operation::Verify | Operation::Generate => true,
            _ => false,
        },
        TextSignFormat::ChaCha20Poly1305 => match operation {
            Operation::Generate | Operation::Encrypt | Operation::Decrypt => true,
            _ => false,
        },
    };
    if offered {
        Ok(())
    } else {
        Err(TextError::UnsupportedOperation { format, operation })
    }
}

} // verus!

//! The text commands: sign, verify, generate, encrypt, decrypt.

use crate::error::{check_supported, supports, Operation, TextError};
use crate::utils::{lowercase_of, str_equal, strings_view, to_lowercase};
use vstd::prelude::*;

verus! {

/// The algorithm family that a key belongs to.
#[derive(Debug, Clone, Copy, PartialEq, Eq, Structural)]
pub enum TextSignFormat {
    /// Keyed hashing with a 32-byte shared key.
    Blake3,
    /// Asymmetric signatures with a 32-byte private and a 32-byte public key.
    Ed25519,
    /// Authenticated encryption with a 32-byte key and a 12-byte nonce.
    ChaCha20Poly1305,
}

/// The format that a lower-case name stands for.
pub open spec fn text_format_named(name: Seq<char>) -> Result<TextSignFormat, TextError> {
    if name == "blake3"@ {
        Ok(TextSignFormat::Blake3)
    } else if name == "ed25519"@ {
        Ok(TextSignFormat::Ed25519)
    } else if name == "chacha20poly1305"@ {
        Ok(TextSignFormat::ChaCha20Poly1305)
    } else {
        Err(TextError::UnknownFormat)
    }
}

/// The name of a format.
pub open spec fn text_format_name(format: TextSignFormat) -> &'static str {
    match format {
        TextSignFormat::Blake3 => "blake3",
        TextSignFormat::Ed25519 => "ed25519",
        TextSignFormat::ChaCha20Poly1305 => "chacha20poly1305",
    }
}

/// The name of a format stands for that format.
pub proof fn lemma_text_format_name_round_trip(format: TextSignFormat)
    ensures
        text_format_named(text_format_name(format)@) == Ok::<TextSignFormat, TextError>(format),
{
    reveal_strlit("blake3");
    reveal_strlit("ed25519");
    reveal_strlit("chacha20poly1305");
    assert("blake3"@.len() == 6);
    assert("ed25519"@.len() == 7);
    assert("chacha20poly1305"@.len() == 16);
}

/// The names of the files that the keys of a format go to, in the order
/// in which the keys are generated.
pub open spec fn key_file_names(format: TextSignFormat) -> Seq<Seq<char>> {
    match format {
        TextSignFormat::Blake3 => seq!["blake3"@],
        TextSignFormat::Ed25519 => seq!["ed25519.sk"@, "ed25519.pk"@],
        TextSignFormat::ChaCha20Poly1305 => seq!["chacha20poly1305.key"@],
    }
}

impl TextSignFormat {
    /// The format that the lower-case `name` stands for.
    pub fn from_name(name: &str) -> (r: Result<Self, TextError>)
        ensures
            r == text_format_named(name@),
    {
        if str_equal(name, "blake3") {
            Ok(TextSignFormat::Blake3)
        } else if str_equal(name, "ed25519") {
            Ok(TextSignFormat::Ed25519)
        } else if str_equal(name, "chacha20poly1305") {
            Ok(TextSignFormat::ChaCha20Poly1305)
        } else {
            Err(TextError::UnknownFormat)
        }
    }

    /// The name of the format, which `from_name` reads back.
    pub fn name(self) -> (r: &'static str)
        ensures
            r == text_format_name(self),
            text_format_named(r@) == Ok::<TextSignFormat, TextError>(self),
    {
        proof {
            lemma_text_format_name_round_trip(self);
        }
        match self {
            TextSignFormat::Blake3 => "blake3",
            TextSignFormat::Ed25519 => "ed25519",
            TextSignFormat::ChaCha20Poly1305 => "chacha20poly1305",
        }
    }

    /// The names of the files that the keys of this format go to.
    pub fn key_files(self) -> (names: Vec<String>)
        ensures
            strings_view(names) == key_file_names(self),
    {
        let names = match self {
            TextSignFormat::Blake3 => vec!["blake3".to_owned()],
            TextSignFormat::Ed25519 => vec!["ed25519.sk".to_owned(), "ed25519.pk".to_owned()],
            TextSignFormat::ChaCha20Poly1305 => vec!["chacha20poly1305.key".to_owned()],
        };
        proof {
            assert(strings_view(names) =~= key_file_names(self));
        }
        names
    }
}

/// Reads a format from a word of the command line, in any case of letters.
pub fn parse_format(value: &str) -> (r: Result<TextSignFormat, TextError>)
    ensures
        r == text_format_named(lowercase_of(value@)),
{
    let lower = to_lowercase(value);
    TextSignFormat::from_name(lower.as_str())
}

impl std::str::FromStr for TextSignFormat {
    type Err = TextError;

    /// Reads a format from a word, in any case of letters: the one that the
    /// word's lower-case form names, or the refusal of a word that names
    /// none.
    fn from_str(s: &str) -> (r: Result<Self, TextError>)
        ensures
            r == text_format_named(lowercase_of(s@)),
    {
        parse_format(s)
    }
}

/// Sign an input with a key.
#[derive(Debug, Clone)]
pub struct TextSignOpts {
    /// Where the input comes from: a path, or `-` for standard input.
    pub input: String,
    /// The path of the key file.
    pub key: String,
    pub format: TextSignFormat,
}

/// Check a signature against an input with a key.
#[derive(Debug, Clone)]
pub struct TextVerifyOpts {
    /// Where the input comes from: a path, or `-` for standard input.
    pub input: String,
    /// The path of the key file.
    pub key: String,
    pub format: TextSignFormat,
    /// The signature, as text.
    pub sig: String,
}

/// Make fresh keys and write them below a directory.
#[derive(Debug, Clone)]
pub struct TextKeyGenerateOpts {
    pub format: TextSignFormat,
    /// The directory that takes the key files.
    pub output: String,
}

/// Encrypt an input with a key file.
#[derive(Debug, Clone)]
pub struct TextEncryptOpts {
    /// Where the input comes from: a path, or `-` for standard input.
    pub input: String,
    /// The path of the key file.
    pub key: String,
}

/// Decrypt an input with a key file.
#[derive(Debug, Clone)]
pub struct TextDecryptOpts {
    /// Where the input comes from: a path, or `-` for standard input.
    pub input: String,
    /// The path of the key file.
    pub key: String,
}

/// The text commands.
#[derive(Debug, Clone)]
pub enum TextSubCommand {
    Sign(TextSignOpts),
    Verify(TextVerifyOpts),
    Generate(TextKeyGenerateOpts),
    Encrypt(TextEncryptOpts),
    Decrypt(TextDecryptOpts),
}

impl TextSubCommand {
    /// The operation that the command asks for.
    pub open spec fn operation_spec(&self) -> Operation {
        match self {
            TextSubCommand::Sign(_) => Operation::Sign,
            TextSubCommand::Verify(_) => Operation::Verify,
            TextSubCommand::Generate(_) => Operation::Generate,
            TextSubCommand::Encrypt(_) => Operation::Encrypt,
            TextSubCommand::Decrypt(_) => Operation::Decrypt,
        }
    }

    /// The format that the command works in; encryption and decryption
    /// know one only.
    pub open spec fn format_spec(&self) -> TextSignFormat {
        match self {
            TextSubCommand::Sign(opts) => opts.format,
            TextSubCommand::Verify(opts) => opts.format,
            TextSubCommand::Generate(opts) => opts.format,
            TextSubCommand::Encrypt(_) => TextSignFormat::ChaCha20Poly1305,
            TextSubCommand::Decrypt(_) => TextSignFormat::ChaCha20Poly1305,
        }
    }

    /// The operation that the command asks for.
    pub fn operation(&self) -> (r: Operation)
        ensures
            r == self.operation_spec(),
    {
        match self {
            TextSubCommand::Sign(_) => Operation::Sign,
            TextSubCommand::Verify(_) => Operation::Verify,
            TextSubCommand::Generate(_) => Operation::Generate,
            TextSubCommand::Encrypt(_) => Operation::Encrypt,
            TextSubCommand::Decrypt(_) => Operation::Decrypt,
        }
    }

    /// The format that the command works in.
    pub fn format(&self) -> (r: TextSignFormat)
        ensures
            r == self.format_spec(),
    {
        match self {
            TextSubCommand::Sign(opts) => opts.format,
            TextSubCommand::Verify(opts) => opts.format,
            TextSubCommand::Generate(opts) => opts.format,
            TextSubCommand::Encrypt(_) => TextSignFormat::ChaCha20Poly1305,
            TextSubCommand::Decrypt(_) => TextSignFormat::ChaCha20Poly1305,
        }
    }

    /// Refuses a command whose format does not offer its operation, before
    /// any input or key is read.
    pub fn check(&self) -> (r: Result<(), TextError>)
        ensures
            supports(self.format_spec(), self.operation_spec()) ==> r is Ok,
            !supports(self.format_spec(), self.operation_spec()) ==> r == Err::<(), TextError>(
                TextError::UnsupportedOperation {
                    format: self.format_spec(),
                    operation: self.operation_spec(),
                },
            ),
    {
        check_supported(self.format(), self.operation())
    }
}

} // verus!

//! Keyed hashing, asymmetric signatures and authenticated encryption behind
//! common capabilities, and the work on input and key as their sources
//! gave them.

pub mod cipher;
pub mod keyed_hash;
pub mod signature;

pub use crate::process::text::cipher::ChaCha20Poly1305Aead;
pub use crate::process::text::keyed_hash::Blake3;
pub use crate::process::text::signature::{Ed25519Signer, Ed25519Verifier};

use crate::cli::base64::Base64Format;
use crate::cli::text::{key_file_names, TextSignFormat};
use crate::error::{check_supported, Operation, TextError};
use crate::process::base64::{
    bytes_view, decode, decode_spec, encode, encode_spec, max_encodable_len, text_view,
};
use crate::process::text::cipher::{decrypt_with, encrypt_with};
use crate::process::text::keyed_hash::blake3_keyed_hash;
use crate::process::text::signature::{ed25519_accepts, ed25519_public_key, ed25519_signature};
use crate::utils::{
    is_ascii_whitespace, lemma_trailing_whitespace_is_ignored, read_data, trim_end, utf8_text,
};
use vstd::prelude::*;
use vstd::utf8::*;

verus! {

/// The length of a hashing key, of either half of a signing key pair and
/// of the cipher's key.
pub const KEY_LEN: usize = 32;

/// The length of the cipher's nonce.
pub const NONCE_LEN: usize = 12;

/// The length of the cipher's key file: key, then nonce.
pub const CIPHER_KEY_LEN: usize = 44;

/// The length of a keyed hash, which is the hashing key's signature.
pub const HASH_LEN: usize = 32;

/// The length of an asymmetric signature.
pub const SIGNATURE_LEN: usize = 64;

/// The length of the tag that the cipher appends.
pub const TAG_LEN: usize = 16;

/// The cipher takes messages shorter than this.
pub const MAX_PLAINTEXT_LEN: u64 = 274_877_906_880;

/// A set of keys by their bytes.
pub open spec fn keys_view(keys: Vec<Vec<u8>>) -> Seq<Seq<u8>> {
    Seq::new(keys@.len(), |i: int| keys@[i]@)
}

/// Builds a key from the bytes of its file.
pub trait KeyLoader: Sized {
    /// The bytes that the key holds.
    spec fn key_bytes(&self) -> Seq<u8>;

    /// What loading `key` comes to: the bytes that the key then holds, or
    /// the reason why there is no key.
    spec fn load_spec(key: Seq<u8>) -> Result<Seq<u8>, TextError>;

    fn load(key: &[u8]) -> (r: Result<Self, TextError>)
        ensures
            match r {
                Ok(loaded) => Self::load_spec(key@) == Ok::<Seq<u8>, TextError>(
                    loaded.key_bytes(),
                ),
                Err(e) => Self::load_spec(key@) == Err::<Seq<u8>, TextError>(e),
            },
    ;
}

/// Signs an input.
pub trait TextSign {
    /// The signature of `input`.
    spec fn sign_spec(&self, input: Seq<u8>) -> Result<Seq<u8>, TextError>;

    fn sign(&self, input: &[u8]) -> (r: Result<Vec<u8>, TextError>)
        ensures
            bytes_view(r) == self.sign_spec(input@),
    ;
}

/// Checks a signature against an input.
pub trait TextVerify {
    /// Whether `sig` is the signature of `input`.
    spec fn verify_spec(&self, input: Seq<u8>, sig: Seq<u8>) -> Result<bool, TextError>;

    fn verify(&self, input: &[u8], sig: &[u8]) -> (r: Result<bool, TextError>)
        ensures
            r == self.verify_spec(input@, sig@),
    ;
}

/// Makes fresh key material.
pub trait KeyGenerator {
    /// What holds of every set of keys that `generate` hands out.
    spec fn generated(keys: Seq<Seq<u8>>) -> bool;

    fn generate() -> (r: Result<Vec<Vec<u8>>, TextError>)
        ensures
            r matches Ok(keys) ==> Self::generated(keys_view(keys)),
    ;
}

/// Encrypts an input to text.
pub trait Encryptor {
    /// The ciphertext of `input`, as text.
    spec fn encrypt_spec(&self, input: Seq<u8>) -> Result<Seq<char>, TextError>;

    fn encrypt(&self, input: &[u8]) -> (r: Result<String, TextError>)
        ensures
            text_view(r) == self.encrypt_spec(input@),
    ;
}

/// Decrypts the bytes of a ciphertext's text.
pub trait Decryptor {
    /// The plaintext behind `input`.
    spec fn decrypt_spec(&self, input: Seq<u8>) -> Result<Seq<char>, TextError>;

    fn decrypt(&self, input: &[u8]) -> (r: Result<String, TextError>)
        ensures
            text_view(r) == self.decrypt_spec(input@),
    ;
}

/// What signing comes to, given input and key as their sources gave them:
/// the signature as text, the reason why the key was refused, or the
/// refusal of a format that does not sign.
pub open spec fn sign_outcome(input: Seq<u8>, key: Seq<u8>, format: TextSignFormat) -> Result<
    Seq<char>,
    TextError,
> {
    match format {
        TextSignFormat::Blake3 => match Blake3::load_spec(trim_end(key)) {
            Ok(k) => encode_spec(blake3_keyed_hash(k, trim_end(input)), Base64Format::UrlSafe),
            Err(e) => Err(e),
        },
        TextSignFormat::Ed25519 => match Ed25519Signer::load_spec(trim_end(key)) {
            Ok(k) => encode_spec(ed25519_signature(k, trim_end(input)), Base64Format::UrlSafe),
            Err(e) => Err(e),
        },
        TextSignFormat::ChaCha20Poly1305 => Err(
            TextError::UnsupportedOperation { format, operation: Operation::Sign },
        ),
    }
}

/// What verifying comes to, given input and key as their sources gave
/// them and the signature as text: whether the signature is the input's,
/// the reason why signature or key was refused, or the refusal of a format
/// that does not verify. The format is looked at first, then the
/// signature, then the key.
pub open spec fn verify_outcome(
    input: Seq<u8>,
    key: Seq<u8>,
    sig: Seq<char>,
    format: TextSignFormat,
) -> Result<bool, TextError> {
    if format == TextSignFormat::ChaCha20Poly1305 {
        Err(TextError::UnsupportedOperation { format, operation: Operation::Verify })
    } else {
        match decode_spec(encode_utf8(sig), Base64Format::UrlSafe) {
            Ok(sig) => if format == TextSignFormat::Blake3 {
                match Blake3::load_spec(trim_end(key)) {
                    Ok(k) => Ok(sig == blake3_keyed_hash(k, trim_end(input))),
                    Err(e) => Err(e),
                }
            } else {
                match Ed25519Verifier::load_spec(trim_end(key)) {
                    Ok(k) => Ok(
                        sig.len() == SIGNATURE_LEN && ed25519_accepts(k, trim_end(input), sig),
                    ),
                    Err(e) => Err(e),
                }
            },
            Err(e) => Err(e),
        }
    }
}

/// What holds of every set of keys made for `format`.
pub open spec fn generated_for(format: TextSignFormat, keys: Seq<Seq<u8>>) -> bool {
    match format {
        TextSignFormat::Blake3 => Blake3::generated(keys),
        TextSignFormat::Ed25519 => Ed25519Signer::generated(keys),
        TextSignFormat::ChaCha20Poly1305 => ChaCha20Poly1305Aead::generated(keys),
    }
}

/// What encrypting comes to, given input and key as their sources gave
/// them.
pub open spec fn encrypt_outcome(input: Seq<u8>, key: Seq<u8>) -> Result<Seq<char>, TextError> {
    match ChaCha20Poly1305Aead::load_spec(trim_end(key)) {
        Ok(blob) => encrypt_with(blob, trim_end(input)),
        Err(e) => Err(e),
    }
}

/// What decrypting comes to, given input and key as their sources gave
/// them.
pub open spec fn decrypt_outcome(input: Seq<u8>, key: Seq<u8>) -> Result<Seq<char>, TextError> {
    match ChaCha20Poly1305Aead::load_spec(trim_end(key)) {
        Ok(blob) => decrypt_with(blob, trim_end(input)),
        Err(e) => Err(e),
    }
}

/// Signs `input` with the key in `key` and hands back the signature as
/// text. Trailing whitespace of input and key does not count. A format
/// that does not sign is refused before the key is looked at. Verifying
/// the result against the same input says yes: under a hashing key with
/// the same key, under a private key with the public key that belongs to
/// it.
pub fn process_sign(input: &[u8], key: &[u8], format: TextSignFormat) -> (r: Result<
    String,
    TextError,
>)
    ensures
        text_view(r) == sign_outcome(input@, key@, format),
        r is Ok <==> match format {
            TextSignFormat::Blake3 => trim_end(key@).len() >= KEY_LEN,
            TextSignFormat::Ed25519 => trim_end(key@).len() == KEY_LEN,
            TextSignFormat::ChaCha20Poly1305 => false,
        },
        r matches Ok(text) ==> format == TextSignFormat::Blake3 ==> verify_outcome(
            input@,
            key@,
            text@,
            format,
        ) == Ok::<bool, TextError>(true),
        r matches Ok(text) ==> format == TextSignFormat::Ed25519 ==> forall|public_key: Seq<u8>|
            Ed25519Verifier::load_spec(trim_end(public_key)) == Ok::<Seq<u8>, TextError>(
                ed25519_public_key(trim_end(key@)),
            ) ==> #[trigger] verify_outcome(input@, public_key, text@, format) == Ok::<
                bool,
                TextError,
            >(true),
{
    match check_supported(format, Operation::Sign) {
        Ok(()) => {},
        Err(e) => {
            return Err(e);
        },
    }
    let input = read_data(input);
    let key = read_data(key);
    let signed = match format {
        TextSignFormat::Blake3 => Blake3::load(key.as_slice())?.sign(input.as_slice())?,
        _ => Ed25519Signer::load(key.as_slice())?.sign(input.as_slice())?,
    };
    encode(signed.as_slice(), Base64Format::UrlSafe)
}

/// Checks the signature `sig`, given as text, against `input` with the
/// key in `key`. Trailing whitespace of input and key does not count. A
/// signature that does not match is answered with `false`, not with an
/// error.
pub fn process_verify(input: &[u8], key: &[u8], sig: &str, format: TextSignFormat) -> (r: Result<
    bool,
    TextError,
>)
    ensures
        r == verify_outcome(input@, key@, sig@, format),
{
    match check_supported(format, Operation::Verify) {
        Ok(()) => {},
        Err(e) => {
            return Err(e);
        },
    }
    let sig = decode(sig.as_bytes(), Base64Format::UrlSafe)?;
    let input = read_data(input);
    let key = read_data(key);
    match format {
        TextSignFormat::Blake3 => Blake3::load(key.as_slice())?.verify(
            input.as_slice(),
            sig.as_slice(),
        ),
        _ => Ed25519Verifier::load(key.as_slice())?.verify(input.as_slice(), sig.as_slice()),
    }
}

/// Makes fresh key material for `format`: one 32-byte key for hashing, a
/// 32-byte private and the matching 32-byte public key for signatures, one
/// 44-byte key file for the cipher.
pub fn process_gen_key(format: TextSignFormat) -> (r: Result<Vec<Vec<u8>>, TextError>)
    ensures
        r matches Ok(keys) && generated_for(format, keys_view(keys)),
{
    match format {
        TextSignFormat::Blake3 => Blake3::generate(),
        TextSignFormat::Ed25519 => Ed25519Signer::generate(),
        TextSignFormat::ChaCha20Poly1305 => ChaCha20Poly1305Aead::generate(),
    }
}

/// Encrypts `input` with the key file in `key` and hands back the
/// ciphertext as text. Trailing whitespace of input and key does not count.
/// Where the input is text, decrypting the bytes of the result under the
/// same key gives that text back.
pub fn process_encrypt(input: &[u8], key: &[u8]) -> (r: Result<String, TextError>)
    ensures
        text_view(r) == encrypt_outcome(input@, key@),
        r is Ok <==> trim_end(key@).len() == CIPHER_KEY_LEN && trim_end(input@).len()
            < MAX_PLAINTEXT_LEN && trim_end(input@).len() + TAG_LEN <= max_encodable_len(),
        r matches Ok(text) ==> (utf8_text(trim_end(input@)) matches Some(plain) ==> decrypt_with(
            trim_end(key@),
            encode_utf8(text@),
        ) == Ok::<Seq<char>, TextError>(plain)),
{
    let input = read_data(input);
    let key = read_data(key);
    ChaCha20Poly1305Aead::load(key.as_slice())?.encrypt(input.as_slice())
}

/// Decrypts the ciphertext whose text is in `input` with the key file in
/// `key` and hands back the plaintext as text. Trailing whitespace of input
/// and key does not count. A ciphertext that does not authenticate is an
/// error of its own.
pub fn process_decrypt(input: &[u8], key: &[u8]) -> (r: Result<String, TextError>)
    ensures
        text_view(r) == decrypt_outcome(input@, key@),
{
    let input = read_data(input);
    let key = read_data(key);
    ChaCha20Poly1305Aead::load(key.as_slice())?.decrypt(input.as_slice())
}

/// Whitespace at the end of input or key changes no outcome.
pub proof fn lemma_outcomes_ignore_trailing_whitespace(
    input: Seq<u8>,
    input_tail: Seq<u8>,
    key: Seq<u8>,
    key_tail: Seq<u8>,
    sig: Seq<char>,
    format: TextSignFormat,
)
    requires
        forall|i: int| 0 <= i < input_tail.len() ==> is_ascii_whitespace(#[trigger] input_tail[i]),
        forall|i: int| 0 <= i < key_tail.len() ==> is_ascii_whitespace(#[trigger] key_tail[i]),
    ensures
        sign_outcome(input + input_tail, key + key_tail, format) == sign_outcome(
            input,
            key,
            format,
        ),
        verify_outcome(input + input_tail, key + key_tail, sig, format) == verify_outcome(
            input,
            key,
            sig,
            format,
        ),
        encrypt_outcome(input + input_tail, key + key_tail) == encrypt_outcome(input, key),
        decrypt_outcome(input + input_tail, key + key_tail) == decrypt_outcome(input, key),
{
    lemma_trailing_whitespace_is_ignored(input, input_tail);
    lemma_trailing_whitespace_is_ignored(key, key_tail);
}

/// A hashing key verifies the signatures made under the same key bytes.
pub proof fn lemma_keyed_hash_sign_then_verify(signer: Blake3, verifier: Blake3, input: Seq<u8>)
    requires
        signer.key_bytes() == verifier.key_bytes(),
    ensures
        signer.sign_spec(input) matches Ok(sig) && verifier.verify_spec(input, sig) == Ok::<
            bool,
            TextError,
        >(true),
{
}

/// A hashing key accepts one signature for an input and no other.
pub proof fn lemma_keyed_hash_accepts_only_its_signature(
    key: Blake3,
    input: Seq<u8>,
    sig: Seq<u8>,
)
    ensures
        key.verify_spec(input, sig) == Ok::<bool, TextError>(true) <==> key.sign_spec(input) == Ok::<
            Seq<u8>,
            TextError,
        >(sig),
{
}

/// Keys that hold the same bytes behave alike.
pub proof fn lemma_same_bytes_same_behaviour(
    hash_a: Blake3,
    hash_b: Blake3,
    signer_a: Ed25519Signer,
    signer_b: Ed25519Signer,
    verifier_a: Ed25519Verifier,
    verifier_b: Ed25519Verifier,
    cipher_a: ChaCha20Poly1305Aead,
    cipher_b: ChaCha20Poly1305Aead,
    input: Seq<u8>,
    sig: Seq<u8>,
)
    ensures
        hash_a.key_bytes() == hash_b.key_bytes() ==> hash_a.sign_spec(input) == hash_b.sign_spec(
            input,
        ) && hash_a.verify_spec(input, sig) == hash_b.verify_spec(input, sig),
        signer_a.key_bytes() == signer_b.key_bytes() ==> signer_a.sign_spec(input)
            == signer_b.sign_spec(input),
        verifier_a.key_bytes() == verifier_b.key_bytes() ==> verifier_a.verify_spec(input, sig)
            == verifier_b.verify_spec(input, sig),
        cipher_a.key_bytes() == cipher_b.key_bytes() ==> cipher_a.encrypt_spec(input)
            == cipher_b.encrypt_spec(input) && cipher_a.decrypt_spec(input)
            == cipher_b.decrypt_spec(input),
{
}

/// There are as many file names for a format as keys are generated for it.
pub proof fn lemma_key_files_match_keys(format: TextSignFormat, keys: Seq<Seq<u8>>)
    requires
        generated_for(format, keys),
    ensures
        key_file_names(format).len() == keys.len(),
{
}

/// Each generated key loads, and the loaded key holds the very bytes
/// that were generated.
pub proof fn lemma_generated_keys_load(format: TextSignFormat, keys: Seq<Seq<u8>>)
    requires
        generated_for(format, keys),
    ensures
        match format {
            TextSignFormat::Blake3 => Blake3::load_spec(keys[0]) == Ok::<Seq<u8>, TextError>(
                keys[0],
            ),
            TextSignFormat::Ed25519 => Ed25519Signer::load_spec(keys[0]) == Ok::<
                Seq<u8>,
                TextError,
            >(keys[0]) && Ed25519Verifier::load_spec(keys[1]) == Ok::<Seq<u8>, TextError>(
                keys[1],
            ),
            TextSignFormat::ChaCha20Poly1305 => ChaCha20Poly1305Aead::load_spec(keys[0]) == Ok::<
                Seq<u8>,
                TextError,
            >(keys[0]),
        },
{
    if format == TextSignFormat::Blake3 {
        assert(keys[0].subrange(0, 32) =~= keys[0]);
    }
}

/// A key shorter than its format asks for is refused for its length.
pub proof fn lemma_short_key_is_refused(key: Seq<u8>)
    ensures
        key.len() < KEY_LEN ==> Blake3::load_spec(key) == Err::<Seq<u8>, TextError>(
            TextError::KeyLength { expected: KEY_LEN, actual: key.len() as usize },
        ),
        key.len() < KEY_LEN ==> Ed25519Signer::load_spec(key) == Err::<Seq<u8>, TextError>(
            TextError::KeyLength { expected: KEY_LEN, actual: key.len() as usize },
        ),
        key.len() < KEY_LEN ==> Ed25519Verifier::load_spec(key) == Err::<Seq<u8>, TextError>(
            TextError::KeyLength { expected: KEY_LEN, actual: key.len() as usize },
        ),
        key.len() < CIPHER_KEY_LEN ==> ChaCha20Poly1305Aead::load_spec(key) == Err::<
            Seq<u8>,
            TextError,
        >(TextError::KeyLength { expected: CIPHER_KEY_LEN, actual: key.len() as usize }),
{
}

} // verus!

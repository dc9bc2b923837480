//! The authenticated cipher.

use crate::cli::base64::Base64Format;
use crate::error::TextError;
use crate::process::base64::{decode, decode_spec, encode, encode_spec, max_encodable_len};
use crate::process::text::{
    keys_view, Decryptor, Encryptor, KeyGenerator, KeyLoader, CIPHER_KEY_LEN, KEY_LEN,
    MAX_PLAINTEXT_LEN, TAG_LEN,
};
use crate::utils::{prefix_array, string_from_utf8, to_vec, utf8_text};
use vstd::prelude::*;
use vstd::utf8::*;

verus! {

/// The ChaCha20-Poly1305 ciphertext of `plaintext` under `key` and `nonce`,
/// where the cipher takes the message.
pub uninterp spec fn chacha20poly1305_sealed(
    key: Seq<u8>,
    nonce: Seq<u8>,
    plaintext: Seq<u8>,
) -> Option<Seq<u8>>;

/// The plaintext that ChaCha20-Poly1305 recovers from `ciphertext` under
/// `key` and `nonce`, where the ciphertext authenticates.
pub uninterp spec fn chacha20poly1305_opened(
    key: Seq<u8>,
    nonce: Seq<u8>,
    ciphertext: Seq<u8>,
) -> Option<Seq<u8>>;

/// An optional byte string by its bytes.
pub open spec fn option_view(r: Option<Vec<u8>>) -> Option<Seq<u8>> {
    match r {
        Some(v) => Some(v@),
        None => None,
    }
}

/// Calls `KeyInit::generate_key` for ChaCha20-Poly1305 with the operating
/// system's generator; nothing is known of the key beforehand.
#[verifier::external_body]
fn chacha20poly1305_generate_key() -> (key: [u8; 32]) {
    let key = <::chacha20poly1305::ChaCha20Poly1305 as ::chacha20poly1305::KeyInit>::generate_key(
        &mut ::chacha20poly1305::aead::OsRng,
    );
    key.into()
}

/// Calls `AeadCore::generate_nonce` for ChaCha20-Poly1305 with the
/// operating system's generator; nothing is known of the nonce beforehand.
#[verifier::external_body]
fn chacha20poly1305_generate_nonce() -> (nonce: [u8; 12]) {
    let nonce =
        <::chacha20poly1305::ChaCha20Poly1305 as ::chacha20poly1305::AeadCore>::generate_nonce(
        &mut ::chacha20poly1305::aead::OsRng,
    );
    nonce.into()
}

/// Calls `Aead::encrypt` of ChaCha20-Poly1305. The cipher takes a message
/// if and only if it is shorter than `MAX_PLAINTEXT_LEN`; the ciphertext is
/// 16 bytes longer than the message, and opens to it under the same key
/// and nonce.
#[verifier::external_body]
fn chacha20poly1305_seal(key: &[u8; 32], nonce: &[u8; 12], plaintext: &[u8]) -> (r: Option<Vec<u8>>)
    ensures
        option_view(r) == chacha20poly1305_sealed(key@, nonce@, plaintext@),
        r is Some <==> plaintext@.len() < MAX_PLAINTEXT_LEN,
        r matches Some(ciphertext) ==> ciphertext@.len() == plaintext@.len() + TAG_LEN
            && chacha20poly1305_opened(key@, nonce@, ciphertext@) == Some(plaintext@),
{
    let cipher = <::chacha20poly1305::ChaCha20Poly1305 as ::chacha20poly1305::KeyInit>::new(
        ::chacha20poly1305::Key::from_slice(key),
    );
    let nonce = ::chacha20poly1305::Nonce::from_slice(nonce);
    ::chacha20poly1305::aead::Aead::encrypt(&cipher, nonce, plaintext).ok()
}

/// Calls `Aead::decrypt` of ChaCha20-Poly1305, which hands back the
/// plaintext or refuses a ciphertext that does not authenticate.
#[verifier::external_body]
fn chacha20poly1305_open(key: &[u8; 32], nonce: &[u8; 12], ciphertext: &[u8]) -> (r: Option<
    Vec<u8>,
>)
    ensures
        option_view(r) == chacha20poly1305_opened(key@, nonce@, ciphertext@),
{
    let cipher = <::chacha20poly1305::ChaCha20Poly1305 as ::chacha20poly1305::KeyInit>::new(
        ::chacha20poly1305::Key::from_slice(key),
    );
    let nonce = ::chacha20poly1305::Nonce::from_slice(nonce);
    ::chacha20poly1305::aead::Aead::decrypt(&cipher, nonce, ciphertext).ok()
}

/// The key bytes of a cipher key file.
pub open spec fn cipher_key(blob: Seq<u8>) -> Seq<u8> {
    blob.subrange(0, KEY_LEN as int)
}

/// The nonce bytes of a cipher key file.
pub open spec fn cipher_nonce(blob: Seq<u8>) -> Seq<u8> {
    blob.subrange(KEY_LEN as int, CIPHER_KEY_LEN as int)
}

/// What encrypting `input` under the key file `blob` comes to: the text
/// of the ciphertext, unless the cipher or the encoder refuses the length.
pub open spec fn encrypt_with(blob: Seq<u8>, input: Seq<u8>) -> Result<Seq<char>, TextError> {
    match chacha20poly1305_sealed(cipher_key(blob), cipher_nonce(blob), input) {
        Some(ciphertext) => encode_spec(ciphertext, Base64Format::UrlSafe),
        None => Err(TextError::Crypto),
    }
}

/// What decrypting the text bytes `input` under the key file `blob` comes
/// to: the plaintext as text, unless the input is no encoded text, the
/// ciphertext does not authenticate, or the plaintext is no text.
pub open spec fn decrypt_with(blob: Seq<u8>, input: Seq<u8>) -> Result<Seq<char>, TextError> {
    match decode_spec(input, Base64Format::UrlSafe) {
        Ok(ciphertext) => match chacha20poly1305_opened(
            cipher_key(blob),
            cipher_nonce(blob),
            ciphertext,
        ) {
            Some(plaintext) => match utf8_text(plaintext) {
                Some(text) => Ok(text),
                None => Err(TextError::Decode),
            },
            None => Err(TextError::Crypto),
        },
        Err(e) => Err(e),
    }
}

/// An authenticated cipher: a 32-byte key and the 12-byte nonce that was
/// made with it and serves every encryption under it.
pub struct ChaCha20Poly1305Aead {
    key: [u8; 32],
    nonce: [u8; 12],
}

impl ChaCha20Poly1305Aead {
    /// The cipher that holds `key` and `nonce`.
    pub fn new(key: [u8; 32], nonce: [u8; 12]) -> (r: Self)
        ensures
            r.key_bytes() == key@ + nonce@,
    {
        Self { key, nonce }
    }

    /// The cipher that holds the 32 key bytes and the 12 nonce bytes of
    /// `key`; any other length than 44 is refused.
    pub fn try_new(key: &[u8]) -> (r: Result<Self, TextError>)
        ensures
            match r {
                Ok(loaded) => Self::load_spec(key@) == Ok::<Seq<u8>, TextError>(
                    loaded.key_bytes(),
                ),
                Err(e) => Self::load_spec(key@) == Err::<Seq<u8>, TextError>(e),
            },
    {
        if key.len() != CIPHER_KEY_LEN {
            return Err(TextError::KeyLength { expected: CIPHER_KEY_LEN, actual: key.len() });
        }
        let (head, tail) = key.split_at(KEY_LEN);
        let cipher_key = prefix_array::<32>(head);
        let nonce = prefix_array::<12>(tail);
        proof {
            assert(cipher_key@ + nonce@ =~= key@);
        }
        Ok(Self::new(cipher_key, nonce))
    }

    /// The key file of `key` and `nonce`: the key, then the nonce.
    pub fn key_file(key: [u8; 32], nonce: [u8; 12]) -> (blob: Vec<u8>)
        ensures
            blob@ == key@ + nonce@,
            blob@.len() == CIPHER_KEY_LEN,
    {
        let mut blob = to_vec(key.as_slice());
        blob.extend_from_slice(nonce.as_slice());
        proof {
            assert(blob@ =~= key@ + nonce@);
        }
        blob
    }
}

impl KeyLoader for ChaCha20Poly1305Aead {
    closed spec fn key_bytes(&self) -> Seq<u8> {
        self.key@ + self.nonce@
    }

    open spec fn load_spec(key: Seq<u8>) -> Result<Seq<u8>, TextError> {
        if key.len() == CIPHER_KEY_LEN {
            Ok(key)
        } else {
            Err(TextError::KeyLength { expected: CIPHER_KEY_LEN, actual: key.len() as usize })
        }
    }

    /// Builds the cipher from the bytes of its key file, as `try_new` does.
    fn load(key: &[u8]) -> (r: Result<Self, TextError>) {
        Self::try_new(key)
    }
}

impl KeyGenerator for ChaCha20Poly1305Aead {
    open spec fn generated(keys: Seq<Seq<u8>>) -> bool {
        keys.len() == 1 && keys[0].len() == CIPHER_KEY_LEN
    }

    /// Makes a fresh key and a fresh nonce and hands them back as one key
    /// file.
    fn generate() -> (r: Result<Vec<Vec<u8>>, TextError>)
        ensures
            r is Ok,
    {
        let key = chacha20poly1305_generate_key();
        let nonce = chacha20poly1305_generate_nonce();
        let blob = Self::key_file(key, nonce);
        let keys = vec![blob];
        proof {
            assert(keys_view(keys)[0] == blob@);
        }
        Ok(keys)
    }
}

impl Encryptor for ChaCha20Poly1305Aead {
    open spec fn encrypt_spec(&self, input: Seq<u8>) -> Result<Seq<char>, TextError> {
        encrypt_with(self.key_bytes(), input)
    }

    /// Encrypts `input` to text. It succeeds exactly where the cipher and
    /// the encoder take the length, the ciphertext is 16 bytes longer than
    /// the input, and where the input is text, decrypting the bytes of the
    /// result gives that text back.
    fn encrypt(&self, input: &[u8]) -> (r: Result<String, TextError>)
        ensures
            r is Ok <==> input@.len() < MAX_PLAINTEXT_LEN && input@.len() + TAG_LEN
                <= max_encodable_len(),
            r matches Ok(text) ==> (decode_spec(encode_utf8(text@), Base64Format::UrlSafe) matches Ok(
                ciphertext,
            ) && ciphertext.len() == input@.len() + TAG_LEN),
            r matches Ok(text) ==> (utf8_text(input@) matches Some(plain) ==> self.decrypt_spec(
                encode_utf8(text@),
            ) == Ok::<Seq<char>, TextError>(plain)),
    {
        proof {
            assert((self.key@ + self.nonce@).subrange(0, 32) =~= self.key@);
            assert((self.key@ + self.nonce@).subrange(32, 44) =~= self.nonce@);
        }
        match chacha20poly1305_seal(&self.key, &self.nonce, input) {
            Some(ciphertext) => encode(ciphertext.as_slice(), Base64Format::UrlSafe),
            None => Err(TextError::Crypto),
        }
    }
}

impl Decryptor for ChaCha20Poly1305Aead {
    open spec fn decrypt_spec(&self, input: Seq<u8>) -> Result<Seq<char>, TextError> {
        decrypt_with(self.key_bytes(), input)
    }

    /// Decrypts the ciphertext whose text has the bytes `input`: the input
    /// is decoded, opened under key and nonce, and read as text. Each step
    /// has a failure of its own.
    fn decrypt(&self, input: &[u8]) -> (r: Result<String, TextError>) {
        proof {
            assert((self.key@ + self.nonce@).subrange(0, 32) =~= self.key@);
            assert((self.key@ + self.nonce@).subrange(32, 44) =~= self.nonce@);
        }
        let ciphertext = decode(input, Base64Format::UrlSafe)?;
        match chacha20poly1305_open(&self.key, &self.nonce, ciphertext.as_slice()) {
            Some(plaintext) => match string_from_utf8(plaintext) {
                Some(text) => Ok(text),
                None => Err(TextError::Decode),
            },
            None => Err(TextError::Crypto),
        }
    }
}

} // verus!

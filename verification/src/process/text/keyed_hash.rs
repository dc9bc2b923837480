//! The keyed-hash signer.

use crate::error::TextError;
use crate::process::gen_pass::{is_password, process_gen_pass};
use crate::process::text::{
    keys_view, KeyGenerator, KeyLoader, TextSign, TextVerify, HASH_LEN, KEY_LEN,
};
use crate::utils::{bytes_equal, prefix_array, to_vec};
use vstd::prelude::*;

verus! {

/// The BLAKE3 keyed hash of `input` under `key`.
pub uninterp spec fn blake3_keyed_hash(key: Seq<u8>, input: Seq<u8>) -> Seq<u8>;

/// Calls `blake3::keyed_hash` and hands back the 32 bytes of the hash.
#[verifier::external_body]
fn keyed_hash(key: &[u8; 32], input: &[u8]) -> (hash: [u8; 32])
    ensures
        hash@ == blake3_keyed_hash(key@, input@),
{
    *::blake3::keyed_hash(key, input).as_bytes()
}

/// A keyed-hash signer: a 32-byte key shared by signer and verifier.
pub struct Blake3 {
    key: [u8; 32],
}

impl Blake3 {
    /// The signer that holds `key`.
    pub fn new(key: [u8; 32]) -> (r: Self)
        ensures
            r.key_bytes() == key@,
    {
        Self { key }
    }

    /// The signer that holds the first 32 bytes of `key`; a shorter key is
    /// refused, and what follows the first 32 bytes is left aside.
    pub fn try_new(key: &[u8]) -> (r: Result<Self, TextError>)
        ensures
            match r {
                Ok(loaded) => Self::load_spec(key@) == Ok::<Seq<u8>, TextError>(
                    loaded.key_bytes(),
                ),
                Err(e) => Self::load_spec(key@) == Err::<Seq<u8>, TextError>(e),
            },
    {
        if key.len() < KEY_LEN {
            return Err(TextError::KeyLength { expected: KEY_LEN, actual: key.len() });
        }
        Ok(Self::new(prefix_array::<32>(key)))
    }
}

impl KeyLoader for Blake3 {
    closed spec fn key_bytes(&self) -> Seq<u8> {
        self.key@
    }

    open spec fn load_spec(key: Seq<u8>) -> Result<Seq<u8>, TextError> {
        if key.len() >= KEY_LEN {
            Ok(key.subrange(0, KEY_LEN as int))
        } else {
            Err(TextError::KeyLength { expected: KEY_LEN, actual: key.len() as usize })
        }
    }

    /// Builds the signer from the bytes of its key file, as `try_new` does.
    fn load(key: &[u8]) -> (r: Result<Self, TextError>) {
        Self::try_new(key)
    }
}

impl KeyGenerator for Blake3 {
    open spec fn generated(keys: Seq<Seq<u8>>) -> bool {
        &&& keys.len() == 1
        &&& keys[0].len() == KEY_LEN
        &&& is_password(keys[0], 32, true, true, true, true)
    }

    /// Makes one key: 32 characters, drawn from all four classes of
    /// password characters.
    fn generate() -> (r: Result<Vec<Vec<u8>>, TextError>)
        ensures
            r is Ok,
    {
        let key = process_gen_pass(32, true, true, true, true)?;
        let key = to_vec(key.as_str().as_bytes());
        let keys = vec![key];
        proof {
            assert(keys_view(keys)[0] == key@);
        }
        Ok(keys)
    }
}

impl TextSign for Blake3 {
    open spec fn sign_spec(&self, input: Seq<u8>) -> Result<Seq<u8>, TextError> {
        Ok(blake3_keyed_hash(self.key_bytes(), input))
    }

    /// The keyed hash of `input`: 32 bytes that depend on key and input
    /// alone.
    fn sign(&self, input: &[u8]) -> (r: Result<Vec<u8>, TextError>)
        ensures
            r matches Ok(sig) && sig@.len() == HASH_LEN,
    {
        let hash = keyed_hash(&self.key, input);
        Ok(to_vec(hash.as_slice()))
    }
}

impl TextVerify for Blake3 {
    open spec fn verify_spec(&self, input: Seq<u8>, sig: Seq<u8>) -> Result<bool, TextError> {
        Ok(sig == blake3_keyed_hash(self.key_bytes(), input))
    }

    /// Whether `sig` is, byte for byte, the keyed hash of `input`; a
    /// signature of another length is not.
    fn verify(&self, input: &[u8], sig: &[u8]) -> (r: Result<bool, TextError>) {
        let hash = keyed_hash(&self.key, input);
        Ok(bytes_equal(hash.as_slice(), sig))
    }
}

} // verus!

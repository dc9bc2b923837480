//! The asymmetric signer and its verifier.

use crate::error::TextError;
use crate::process::text::{
    keys_view, KeyGenerator, KeyLoader, TextSign, TextVerify, KEY_LEN, SIGNATURE_LEN,
};
use crate::utils::{prefix_array, to_vec};
use vstd::prelude::*;

verus! {

/// The Ed25519 public key that belongs to `private_key`.
pub uninterp spec fn ed25519_public_key(private_key: Seq<u8>) -> Seq<u8>;

/// The Ed25519 signature of `message` under `private_key`.
pub uninterp spec fn ed25519_signature(private_key: Seq<u8>, message: Seq<u8>) -> Seq<u8>;

/// Whether `public_key` decodes to a point of the curve.
pub uninterp spec fn ed25519_is_point(public_key: Seq<u8>) -> bool;

/// Whether `signature` validates for `message` against `public_key`.
pub uninterp spec fn ed25519_accepts(
    public_key: Seq<u8>,
    message: Seq<u8>,
    signature: Seq<u8>,
) -> bool;

/// Calls `SigningKey::generate` of ed25519-dalek with the operating
/// system's generator and hands back the private key's bytes, of which
/// nothing is known beforehand.
#[verifier::external_body]
fn ed25519_generate() -> (private_key: [u8; 32]) {
    ::ed25519_dalek::SigningKey::generate(&mut ::rand::rngs::OsRng).to_bytes()
}

/// Calls `SigningKey::verifying_key` of ed25519-dalek on the key made of
/// `private_key`. The result is the public half, which decodes to a point.
#[verifier::external_body]
fn ed25519_derive_public_key(private_key: &[u8; 32]) -> (public_key: [u8; 32])
    ensures
        public_key@ == ed25519_public_key(private_key@),
        ed25519_is_point(public_key@),
{
    ::ed25519_dalek::SigningKey::from_bytes(private_key).verifying_key().to_bytes()
}

/// Calls `Signer::sign` of ed25519-dalek on the key made of `private_key`.
/// The result is the signature, which validates against the public half.
#[verifier::external_body]
fn ed25519_sign(private_key: &[u8; 32], message: &[u8]) -> (signature: [u8; 64])
    ensures
        signature@ == ed25519_signature(private_key@, message@),
        ed25519_accepts(ed25519_public_key(private_key@), message@, signature@),
{
    let key = ::ed25519_dalek::SigningKey::from_bytes(private_key);
    ::ed25519_dalek::Signer::sign(&key, message).to_bytes()
}

/// Calls `VerifyingKey::from_bytes` of ed25519-dalek and says whether it
/// took the bytes for a point.
#[verifier::external_body]
fn ed25519_decodes(public_key: &[u8; 32]) -> (ok: bool)
    ensures
        ok == ed25519_is_point(public_key@),
{
    ::ed25519_dalek::VerifyingKey::from_bytes(public_key).is_ok()
}

/// Calls `Verifier::verify` of ed25519-dalek on the key made of
/// `public_key` and says whether it took the signature.
#[verifier::external_body]
fn ed25519_verify(public_key: &[u8; 32], message: &[u8], signature: &[u8; 64]) -> (ok: bool)
    requires
        ed25519_is_point(public_key@),
    ensures
        ok == ed25519_accepts(public_key@, message@, signature@),
{
    match ::ed25519_dalek::VerifyingKey::from_bytes(public_key) {
        Ok(key) => {
            let signature = ::ed25519_dalek::Signature::from_bytes(signature);
            ::ed25519_dalek::Verifier::verify(&key, message, &signature).is_ok()
        },
        Err(_) => false,
    }
}

/// The private half of an asymmetric key pair: it signs.
pub struct Ed25519Signer {
    key: [u8; 32],
}

impl Ed25519Signer {
    /// The signer that holds `key`.
    pub fn new(key: [u8; 32]) -> (r: Self)
        ensures
            r.key_bytes() == key@,
    {
        Self { key }
    }

    /// The signer that holds `key`, which has to be 32 bytes: a shorter key
    /// is refused for its length, a longer one as malformed.
    pub fn try_new(key: &[u8]) -> (r: Result<Self, TextError>)
        ensures
            match r {
                Ok(loaded) => Self::load_spec(key@) == Ok::<Seq<u8>, TextError>(
                    loaded.key_bytes(),
                ),
                Err(e) => Self::load_spec(key@) == Err::<Seq<u8>, TextError>(e),
            },
    {
        if key.len() < KEY_LEN {
            return Err(TextError::KeyLength { expected: KEY_LEN, actual: key.len() });
        }
        if key.len() > KEY_LEN {
            return Err(TextError::Crypto);
        }
        let bytes = prefix_array::<32>(key);
        proof {
            assert(bytes@ =~= key@);
        }
        Ok(Self::new(bytes))
    }

    /// The public key that validates this signer's signatures.
    pub open spec fn public_key(&self) -> Seq<u8> {
        ed25519_public_key(self.key_bytes())
    }

    /// The key pair that belongs to `private_key`: the private key, then
    /// the public key derived from it.
    pub fn key_pair(private_key: [u8; 32]) -> (keys: Vec<Vec<u8>>)
        ensures
            keys_view(keys) == seq![private_key@, ed25519_public_key(private_key@)],
            Self::generated(keys_view(keys)),
    {
        let public_key = ed25519_derive_public_key(&private_key);
        let sk = to_vec(private_key.as_slice());
        let pk = to_vec(public_key.as_slice());
        let keys = vec![sk, pk];
        proof {
            assert(keys_view(keys) =~= seq![private_key@, ed25519_public_key(private_key@)]);
        }
        keys
    }
}

impl KeyLoader for Ed25519Signer {
    closed spec fn key_bytes(&self) -> Seq<u8> {
        self.key@
    }

    open spec fn load_spec(key: Seq<u8>) -> Result<Seq<u8>, TextError> {
        if key.len() < KEY_LEN {
            Err(TextError::KeyLength { expected: KEY_LEN, actual: key.len() as usize })
        } else if key.len() > KEY_LEN {
            Err(TextError::Crypto)
        } else {
            Ok(key)
        }
    }

    /// Builds the signer from the bytes of its key file, as `try_new` does.
    fn load(key: &[u8]) -> (r: Result<Self, TextError>) {
        Self::try_new(key)
    }
}

impl KeyGenerator for Ed25519Signer {
    open spec fn generated(keys: Seq<Seq<u8>>) -> bool {
        &&& keys.len() == 2
        &&& keys[0].len() == KEY_LEN
        &&& keys[1].len() == KEY_LEN
        &&& keys[1] == ed25519_public_key(keys[0])
        &&& ed25519_is_point(keys[1])
    }

    /// Makes a fresh private key and derives its public key: the private
    /// key comes first.
    fn generate() -> (r: Result<Vec<Vec<u8>>, TextError>)
        ensures
            r is Ok,
    {
        Ok(Self::key_pair(ed25519_generate()))
    }
}

impl TextSign for Ed25519Signer {
    open spec fn sign_spec(&self, input: Seq<u8>) -> Result<Seq<u8>, TextError> {
        Ok(ed25519_signature(self.key_bytes(), input))
    }

    /// Signs `input`. Every verifier that holds this signer's public key
    /// accepts the signature for `input`.
    fn sign(&self, input: &[u8]) -> (r: Result<Vec<u8>, TextError>)
        ensures
            r matches Ok(sig) && sig@.len() == SIGNATURE_LEN && ed25519_accepts(
                self.public_key(),
                input@,
                sig@,
            ) && forall|verifier: Ed25519Verifier|
                verifier.key_bytes() == self.public_key() ==> #[trigger] verifier.verify_spec(
                    input@,
                    sig@,
                ) == Ok::<bool, TextError>(true),
    {
        let signature = ed25519_sign(&self.key, input);
        Ok(to_vec(signature.as_slice()))
    }
}

/// The public half of an asymmetric key pair: it checks signatures. The
/// key it holds decodes to a point of the curve.
pub struct Ed25519Verifier {
    key: [u8; 32],
}

impl Ed25519Verifier {
    #[verifier::type_invariant]
    spec fn holds_point(self) -> bool {
        ed25519_is_point(self.key@)
    }

    /// The verifier that holds `key`, a point of the curve.
    pub fn new(key: [u8; 32]) -> (r: Self)
        requires
            ed25519_is_point(key@),
        ensures
            r.key_bytes() == key@,
    {
        Self { key }
    }

    /// The verifier that holds `key`, which has to be 32 bytes that decode
    /// to a point: a shorter key is refused for its length, a longer one
    /// and one that is no point as malformed.
    pub fn try_new(key: &[u8]) -> (r: Result<Self, TextError>)
        ensures
            match r {
                Ok(loaded) => Self::load_spec(key@) == Ok::<Seq<u8>, TextError>(
                    loaded.key_bytes(),
                ),
                Err(e) => Self::load_spec(key@) == Err::<Seq<u8>, TextError>(e),
            },
    {
        if key.len() < KEY_LEN {
            return Err(TextError::KeyLength { expected: KEY_LEN, actual: key.len() });
        }
        if key.len() > KEY_LEN {
            return Err(TextError::Crypto);
        }
        let bytes = prefix_array::<32>(key);
        proof {
            assert(bytes@ =~= key@);
        }
        if !ed25519_decodes(&bytes) {
            return Err(TextError::Crypto);
        }
        Ok(Self::new(bytes))
    }
}

impl KeyLoader for Ed25519Verifier {
    closed spec fn key_bytes(&self) -> Seq<u8> {
        self.key@
    }

    open spec fn load_spec(key: Seq<u8>) -> Result<Seq<u8>, TextError> {
        if key.len() < KEY_LEN {
            Err(TextError::KeyLength { expected: KEY_LEN, actual: key.len() as usize })
        } else if key.len() > KEY_LEN || !ed25519_is_point(key) {
            Err(TextError::Crypto)
        } else {
            Ok(key)
        }
    }

    /// Builds the verifier from the bytes of its key file, as `try_new`
    /// does.
    fn load(key: &[u8]) -> (r: Result<Self, TextError>) {
        Self::try_new(key)
    }
}

impl TextVerify for Ed25519Verifier {
    open spec fn verify_spec(&self, input: Seq<u8>, sig: Seq<u8>) -> Result<bool, TextError> {
        Ok(sig.len() == SIGNATURE_LEN && ed25519_accepts(self.key_bytes(), input, sig))
    }

    /// Whether `sig` has 64 bytes and validates for `input` against the
    /// key; a signature that does not is answered with `false`.
    fn verify(&self, input: &[u8], sig: &[u8]) -> (r: Result<bool, TextError>) {
        if sig.len() != SIGNATURE_LEN {
            return Ok(false);
        }
        let signature = prefix_array::<64>(sig);
        proof {
            use_type_invariant(self);
            assert(signature@ =~= sig@);
        }
        Ok(ed25519_verify(&self.key, input, &signature))
    }
}

} // verus!

use rcli::cli::base64::Base64Format;
use rcli::cli::text::TextSignFormat;
use rcli::error::{Operation, TextError};
use rcli::process::base64::{decode, encode};
use rcli::process::text::{
    process_decrypt, process_encrypt, process_gen_key, process_sign, process_verify, Blake3,
    ChaCha20Poly1305Aead, Decryptor, Ed25519Signer, Ed25519Verifier, Encryptor, KeyGenerator,
    KeyLoader, TextSign, TextVerify,
};

/// What the key files of the test suite hold.
fn fixture(name: &str) -> Vec<u8> {
    match name {
        "fixtrues/blake3" => b"Xq7#mK2$pL9@vR4!nT6^wZ8&cB3*hJ5%".to_vec(),
        "fixtrues/ed25519.sk" => vec![
            0x9d, 0x61, 0xb1, 0x9d, 0xef, 0xfd, 0x5a, 0x60, 0xba, 0x84, 0x4a, 0xf4, 0x92, 0xec,
            0x2c, 0xc4, 0x44, 0x49, 0xc5, 0x69, 0x7b, 0x32, 0x69, 0x19, 0x70, 0x3b, 0xac, 0x03,
            0x1c, 0xae, 0x7f, 0x60,
        ],
        "fixtrues/ed25519.pk" => vec![
            0xd7, 0x5a, 0x98, 0x01, 0x82, 0xb1, 0x0a, 0xb7, 0xd5, 0x4b, 0xfe, 0xd3, 0xc9, 0x64,
            0x07, 0x3a, 0x0e, 0xe1, 0x72, 0xf3, 0xda, 0xa6, 0x23, 0x25, 0xaf, 0x02, 0x1a, 0x68,
            0xf7, 0x07, 0x51, 0x1a,
        ],
        "fixtrues/chacha20poly1305.key" => (1u8..=44).collect(),
        _ => panic!("no such fixture: {}", name),
    }
}

fn flip_bit(data: &[u8], bit: usize) -> Vec<u8> {
    let mut out = data.to_vec();
    out[bit / 8] ^= 1 << (bit % 8);
    out
}

#[test]
fn test_blake3_sign_verify() -> Result<(), TextError> {
    let blake3 = Blake3::load(&fixture("fixtrues/blake3"))?;
    let data = b"hello world";
    let signed = blake3.sign(data)?;

    assert!(blake3.verify(data, &signed)?);
    Ok(())
}

#[test]
fn test_ed25519_sign_verify() -> Result<(), TextError> {
    let sk = Ed25519Signer::load(&fixture("fixtrues/ed25519.sk"))?;
    let pk = Ed25519Verifier::load(&fixture("fixtrues/ed25519.pk"))?;
    let data = b"hello world";

    let signed = sk.sign(data)?;
    assert!(pk.verify(data, &signed)?);
    Ok(())
}

#[test]
fn test_cha_cha20_poly1305_aead() -> Result<(), TextError> {
    let encrypted = ChaCha20Poly1305Aead::load(&fixture("fixtrues/chacha20poly1305.key"))?;
    let data = b"hello world";
    let c = encrypted.encrypt(data)?;
    let decrypted = encrypted.decrypt(c.as_bytes())?;
    assert_eq!(data, decrypted.as_bytes());

    Ok(())
}

#[test]
fn blake3_signature_is_a_hash_of_32_bytes() {
    let key = fixture("fixtrues/blake3");
    let blake3 = Blake3::try_new(&key).unwrap();
    let data = b"hello world";
    let signed = blake3.sign(data).unwrap();
    assert_eq!(signed.len(), 32);
    assert_ne!(signed, key);
    assert_ne!(&signed[..11], &data[..]);
    assert_eq!(signed, blake3.sign(data).unwrap());
    assert_ne!(signed, blake3.sign(b"hello world!").unwrap());
    let other = Blake3::new([7u8; 32]);
    assert_ne!(signed, other.sign(data).unwrap());
}

#[test]
fn blake3_verify_of_own_signature_is_true() {
    let blake3 = Blake3::new([42u8; 32]);
    for data in [&b""[..], &b"a"[..], &b"hello world"[..], &[0u8; 1000][..]] {
        let signed = blake3.sign(data).unwrap();
        assert_eq!(blake3.verify(data, &signed), Ok(true));
    }
}

#[test]
fn blake3_verify_rejects_every_single_bit_mutation() {
    let blake3 = Blake3::new([42u8; 32]);
    let data = b"hello world";
    let signed = blake3.sign(data).unwrap();
    for bit in 0..data.len() * 8 {
        assert_eq!(blake3.verify(&flip_bit(data, bit), &signed), Ok(false));
    }
}

#[test]
fn blake3_verify_answers_false_for_a_signature_of_wrong_length() {
    let blake3 = Blake3::new([42u8; 32]);
    let data = b"hello world";
    let signed = blake3.sign(data).unwrap();
    assert_eq!(blake3.verify(data, &signed[..31]), Ok(false));
    assert_eq!(blake3.verify(data, &[]), Ok(false));
    let mut longer = signed.clone();
    longer.push(0);
    assert_eq!(blake3.verify(data, &longer), Ok(false));
}

#[test]
fn blake3_load_takes_the_first_32_bytes_of_a_longer_key() {
    let key = fixture("fixtrues/blake3");
    let mut longer = key.clone();
    longer.extend_from_slice(b"\nand more");
    let a = Blake3::try_new(&key).unwrap();
    let b = Blake3::load(&longer).unwrap();
    assert_eq!(a.sign(b"hello world"), b.sign(b"hello world"));
}

#[test]
fn blake3_load_refuses_a_short_key() {
    assert!(matches!(
        Blake3::try_new(&[1u8; 31]),
        Err(TextError::KeyLength { expected: 32, actual: 31 })
    ));
    assert!(matches!(
        Blake3::load(&[]),
        Err(TextError::KeyLength { expected: 32, actual: 0 })
    ));
}

#[test]
fn ed25519_signature_of_the_empty_message_is_the_known_one() {
    let sk = Ed25519Signer::try_new(&fixture("fixtrues/ed25519.sk")).unwrap();
    let signed = sk.sign(b"").unwrap();
    let expected: Vec<u8> = vec![
        0xe5, 0x56, 0x43, 0x00, 0xc3, 0x60, 0xac, 0x72, 0x90, 0x86, 0xe2, 0xcc, 0x80, 0x6e, 0x82,
        0x8a, 0x84, 0x87, 0x7f, 0x1e, 0xb8, 0xe5, 0xd9, 0x74, 0xd8, 0x73, 0xe0, 0x65, 0x22, 0x49,
        0x01, 0x55, 0x5f, 0xb8, 0x82, 0x15, 0x90, 0xa3, 0x3b, 0xac, 0xc6, 0x1e, 0x39, 0x70, 0x1c,
        0xf9, 0xb4, 0x6b, 0xd2, 0x5b, 0xf5, 0xf0, 0x59, 0x5b, 0xbe, 0x24, 0x65, 0x51, 0x41, 0x43,
        0x8e, 0x7a, 0x10, 0x0b,
    ];
    assert_eq!(signed, expected);
}

#[test]
fn ed25519_signature_has_64_bytes_and_is_deterministic() {
    let sk = Ed25519Signer::try_new(&fixture("fixtrues/ed25519.sk")).unwrap();
    let a = sk.sign(b"hello world").unwrap();
    let b = sk.sign(b"hello world").unwrap();
    assert_eq!(a.len(), 64);
    assert_eq!(a, b);
}

#[test]
fn ed25519_verify_rejects_every_single_bit_mutation() {
    let sk = Ed25519Signer::try_new(&fixture("fixtrues/ed25519.sk")).unwrap();
    let pk = Ed25519Verifier::try_new(&fixture("fixtrues/ed25519.pk")).unwrap();
    let data = b"hello world";
    let signed = sk.sign(data).unwrap();
    for bit in 0..data.len() * 8 {
        assert_eq!(pk.verify(&flip_bit(data, bit), &signed), Ok(false));
    }
}

#[test]
fn ed25519_verify_answers_false_for_a_wrong_signature() {
    let sk = Ed25519Signer::try_new(&fixture("fixtrues/ed25519.sk")).unwrap();
    let pk = Ed25519Verifier::try_new(&fixture("fixtrues/ed25519.pk")).unwrap();
    let data = b"hello world";
    let signed = sk.sign(data).unwrap();
    assert_eq!(pk.verify(data, &signed[..63]), Ok(false));
    assert_eq!(pk.verify(data, &[]), Ok(false));
    assert_eq!(pk.verify(data, &[0u8; 64]), Ok(false));
    assert_eq!(pk.verify(data, &flip_bit(&signed, 5)), Ok(false));
    assert_eq!(pk.verify(data, &fixture("fixtrues/ed25519.sk")), Ok(false));
}

#[test]
fn ed25519_generated_pair_signs_and_verifies() {
    let keys = Ed25519Signer::generate().unwrap();
    assert_eq!(keys.len(), 2);
    assert_eq!(keys[0].len(), 32);
    assert_eq!(keys[1].len(), 32);
    assert_ne!(keys[0], keys[1]);
    let sk = Ed25519Signer::load(&keys[0]).unwrap();
    let pk = Ed25519Verifier::load(&keys[1]).unwrap();
    let signed = sk.sign(b"hello world").unwrap();
    assert_eq!(pk.verify(b"hello world", &signed), Ok(true));

    let others = Ed25519Signer::generate().unwrap();
    assert_ne!(keys[0], others[0]);
    let other_pk = Ed25519Verifier::load(&others[1]).unwrap();
    assert_eq!(other_pk.verify(b"hello world", &signed), Ok(false));
}

#[test]
fn ed25519_keys_of_wrong_length_are_refused() {
    assert!(matches!(
        Ed25519Signer::try_new(&[1u8; 31]),
        Err(TextError::KeyLength { expected: 32, actual: 31 })
    ));
    assert!(matches!(Ed25519Signer::load(&[1u8; 33]), Err(TextError::Crypto)));
    assert!(matches!(
        Ed25519Verifier::try_new(&[1u8; 5]),
        Err(TextError::KeyLength { expected: 32, actual: 5 })
    ));
    let mut longer = fixture("fixtrues/ed25519.pk");
    longer.push(0);
    assert!(matches!(Ed25519Verifier::load(&longer), Err(TextError::Crypto)));
}

#[test]
fn ed25519_verifier_refuses_bytes_that_are_no_point() {
    let mut accepted = 0;
    let mut refused = 0;
    for first in 0..=255u8 {
        let mut key = [0u8; 32];
        key[0] = first;
        match Ed25519Verifier::try_new(&key) {
            Ok(_) => accepted += 1,
            Err(e) => {
                assert_eq!(e, TextError::Crypto);
                refused += 1;
            }
        }
    }
    assert!(accepted > 0);
    assert!(refused > 0);
}

#[test]
fn cipher_round_trip_and_ciphertext_length() {
    let cipher = ChaCha20Poly1305Aead::try_new(&fixture("fixtrues/chacha20poly1305.key")).unwrap();
    for text in ["", "a", "hello world", "gr\u{fc}\u{df}e, \u{4e16}\u{754c}"] {
        let c = cipher.encrypt(text.as_bytes()).unwrap();
        let raw = decode(c.as_bytes(), Base64Format::UrlSafe).unwrap();
        assert_eq!(raw.len(), text.len() + 16);
        if !text.is_empty() {
            assert_ne!(&raw[..text.len()], text.as_bytes());
        }
        assert_eq!(cipher.decrypt(c.as_bytes()), Ok(text.to_string()));
    }
}

#[test]
fn cipher_keeps_its_nonce_across_encryptions() {
    let cipher = ChaCha20Poly1305Aead::try_new(&fixture("fixtrues/chacha20poly1305.key")).unwrap();
    let a = cipher.encrypt(b"hello world").unwrap();
    let b = cipher.encrypt(b"hello world").unwrap();
    assert_eq!(a, b);
    let built = ChaCha20Poly1305Aead::new(
        core::array::from_fn(|i| i as u8 + 1),
        core::array::from_fn(|i| i as u8 + 33),
    );
    assert_eq!(built.encrypt(b"hello world").unwrap(), a);
}

#[test]
fn cipher_refuses_a_tampered_ciphertext() {
    let cipher = ChaCha20Poly1305Aead::try_new(&fixture("fixtrues/chacha20poly1305.key")).unwrap();
    let c = cipher.encrypt(b"hello world").unwrap();
    let raw = decode(c.as_bytes(), Base64Format::UrlSafe).unwrap();
    for at in 0..raw.len() {
        let mut tampered = raw.clone();
        tampered[at] ^= 0x01;
        let text = encode(&tampered, Base64Format::UrlSafe).unwrap();
        assert_eq!(cipher.decrypt(text.as_bytes()), Err(TextError::Crypto));
    }
    let short = encode(&raw[..10], Base64Format::UrlSafe).unwrap();
    assert_eq!(cipher.decrypt(short.as_bytes()), Err(TextError::Crypto));
}

#[test]
fn cipher_refuses_input_that_is_no_encoded_text() {
    let cipher = ChaCha20Poly1305Aead::try_new(&fixture("fixtrues/chacha20poly1305.key")).unwrap();
    assert_eq!(cipher.decrypt(b"not base64 at all!"), Err(TextError::Decode));
    assert_eq!(cipher.decrypt(&[0xff, 0xfe]), Err(TextError::Decode));
}

#[test]
fn cipher_refuses_a_plaintext_that_is_no_text() {
    let cipher = ChaCha20Poly1305Aead::try_new(&fixture("fixtrues/chacha20poly1305.key")).unwrap();
    let c = cipher.encrypt(&[0xff, 0xfe, 0x00]).unwrap();
    assert_eq!(cipher.decrypt(c.as_bytes()), Err(TextError::Decode));
}

#[test]
fn cipher_key_of_wrong_length_is_refused() {
    assert!(matches!(
        ChaCha20Poly1305Aead::try_new(&[1u8; 43]),
        Err(TextError::KeyLength { expected: 44, actual: 43 })
    ));
    assert!(matches!(
        ChaCha20Poly1305Aead::load(&[1u8; 32]),
        Err(TextError::KeyLength { expected: 44, actual: 32 })
    ));
    assert!(matches!(
        ChaCha20Poly1305Aead::load(&[1u8; 45]),
        Err(TextError::KeyLength { expected: 44, actual: 45 })
    ));
}

#[test]
fn generated_keys_have_the_documented_lengths_and_load() {
    let keys = process_gen_key(TextSignFormat::Blake3).unwrap();
    assert_eq!(keys.len(), 1);
    assert_eq!(keys[0].len(), 32);
    assert!(keys[0].iter().all(|b| b.is_ascii_graphic()));
    let blake3 = Blake3::load(&keys[0]).unwrap();
    let signed = blake3.sign(b"hello world").unwrap();
    assert_eq!(blake3.verify(b"hello world", &signed), Ok(true));
    assert_eq!(blake3.verify(b"hello world!", &signed), Ok(false));

    let keys = process_gen_key(TextSignFormat::Ed25519).unwrap();
    assert_eq!(keys.len(), 2);
    assert_eq!(keys[0].len(), 32);
    assert_eq!(keys[1].len(), 32);
    assert!(Ed25519Signer::load(&keys[0]).is_ok());
    assert!(Ed25519Verifier::load(&keys[1]).is_ok());

    let keys = process_gen_key(TextSignFormat::ChaCha20Poly1305).unwrap();
    assert_eq!(keys.len(), 1);
    assert_eq!(keys[0].len(), 44);
    let cipher = ChaCha20Poly1305Aead::load(&keys[0]).unwrap();
    let c = cipher.encrypt(b"hello world").unwrap();
    assert_eq!(cipher.decrypt(c.as_bytes()), Ok("hello world".to_string()));
    let again = ChaCha20Poly1305Aead::generate().unwrap();
    assert_ne!(keys[0], again[0]);
}

#[test]
fn process_sign_then_verify_with_a_hashing_key() {
    let key = fixture("fixtrues/blake3");
    let sig = process_sign(b"hello world", &key, TextSignFormat::Blake3).unwrap();
    assert_eq!(sig.len(), 43);
    assert_eq!(process_verify(b"hello world", &key, &sig, TextSignFormat::Blake3), Ok(true));
    assert_eq!(process_verify(b"hello world!", &key, &sig, TextSignFormat::Blake3), Ok(false));
    let raw = Blake3::try_new(&key).unwrap().sign(b"hello world").unwrap();
    assert_eq!(sig, encode(&raw, Base64Format::UrlSafe).unwrap());
}

#[test]
fn process_sign_then_verify_with_a_key_pair() {
    let sk = fixture("fixtrues/ed25519.sk");
    let pk = fixture("fixtrues/ed25519.pk");
    let sig = process_sign(b"hello world", &sk, TextSignFormat::Ed25519).unwrap();
    assert_eq!(sig.len(), 86);
    assert_eq!(process_verify(b"hello world", &pk, &sig, TextSignFormat::Ed25519), Ok(true));
    assert_eq!(process_verify(b"hello world!", &pk, &sig, TextSignFormat::Ed25519), Ok(false));
}

#[test]
fn process_functions_leave_trailing_whitespace_aside() {
    let mut key = fixture("fixtrues/blake3");
    let plain = process_sign(b"hello world", &key, TextSignFormat::Blake3).unwrap();
    key.extend_from_slice(b"\r\n");
    let spaced = process_sign(b"hello world \t\n", &key, TextSignFormat::Blake3).unwrap();
    assert_eq!(plain, spaced);
    assert_eq!(process_verify(b"hello world\n", &key, &plain, TextSignFormat::Blake3), Ok(true));
    let leading = process_sign(b" hello world", &key, TextSignFormat::Blake3).unwrap();
    assert_ne!(plain, leading);

    let mut pk = fixture("fixtrues/ed25519.pk");
    let mut sk = fixture("fixtrues/ed25519.sk");
    pk.push(b'\n');
    sk.push(b'\n');
    let sig = process_sign(b"hello world\n", &sk, TextSignFormat::Ed25519).unwrap();
    assert_eq!(process_verify(b"hello world", &pk, &sig, TextSignFormat::Ed25519), Ok(true));
}

#[test]
fn process_sign_refuses_the_cipher_before_it_looks_at_the_key() {
    let expected = TextError::UnsupportedOperation {
        format: TextSignFormat::ChaCha20Poly1305,
        operation: Operation::Sign,
    };
    assert_eq!(
        process_sign(b"hello world", b"", TextSignFormat::ChaCha20Poly1305),
        Err(expected)
    );
    let key = fixture("fixtrues/chacha20poly1305.key");
    assert_eq!(
        process_sign(b"hello world", &key, TextSignFormat::ChaCha20Poly1305),
        Err(expected)
    );
}

#[test]
fn process_verify_refuses_the_cipher_first_then_a_bad_signature_then_a_bad_key() {
    assert_eq!(
        process_verify(b"hello world", b"", "***", TextSignFormat::ChaCha20Poly1305),
        Err(TextError::UnsupportedOperation {
            format: TextSignFormat::ChaCha20Poly1305,
            operation: Operation::Verify,
        })
    );
    assert_eq!(
        process_verify(b"hello world", b"", "***", TextSignFormat::Blake3),
        Err(TextError::Decode)
    );
    assert_eq!(
        process_verify(b"hello world", b"short", "aGVsbG8", TextSignFormat::Blake3),
        Err(TextError::KeyLength { expected: 32, actual: 5 })
    );
    assert_eq!(
        process_verify(b"hello world", b"short", "aGVsbG8", TextSignFormat::Ed25519),
        Err(TextError::KeyLength { expected: 32, actual: 5 })
    );
    let key = fixture("fixtrues/blake3");
    assert_eq!(
        process_verify(b"hello world", &key, "aGVsbG8", TextSignFormat::Blake3),
        Ok(false)
    );
    assert_eq!(
        process_verify(b"hello world", &key, "aGVsbG8=", TextSignFormat::Blake3),
        Err(TextError::Decode)
    );
}

#[test]
fn process_sign_refuses_a_short_key() {
    assert_eq!(
        process_sign(b"hello world", b"0123456789", TextSignFormat::Blake3),
        Err(TextError::KeyLength { expected: 32, actual: 10 })
    );
    assert_eq!(
        process_sign(b"hello world", b"0123456789\n\n", TextSignFormat::Ed25519),
        Err(TextError::KeyLength { expected: 32, actual: 10 })
    );
}

#[test]
fn process_encrypt_then_decrypt() {
    let key = fixture("fixtrues/chacha20poly1305.key");
    let c = process_encrypt(b"hello world", &key).unwrap();
    assert_eq!(c.len(), 36);
    assert_eq!(process_decrypt(c.as_bytes(), &key), Ok("hello world".to_string()));
    let mut from_file = c.clone().into_bytes();
    from_file.push(b'\n');
    assert_eq!(process_decrypt(&from_file, &key), Ok("hello world".to_string()));

    let raw = decode(c.as_bytes(), Base64Format::UrlSafe).unwrap();
    let mut tampered = raw.clone();
    tampered[0] ^= 0x80;
    let text = encode(&tampered, Base64Format::UrlSafe).unwrap();
    assert_eq!(process_decrypt(text.as_bytes(), &key), Err(TextError::Crypto));
}

#[test]
fn process_encrypt_refuses_a_short_key() {
    assert_eq!(
        process_encrypt(b"hello world", &[7u8; 32]),
        Err(TextError::KeyLength { expected: 44, actual: 32 })
    );
    assert_eq!(
        process_decrypt(b"aGVsbG8", &[7u8; 43]),
        Err(TextError::KeyLength { expected: 44, actual: 43 })
    );
}

#[test]
fn key_pair_of_a_known_private_key() {
    let sk: [u8; 32] = fixture("fixtrues/ed25519.sk").try_into().unwrap();
    let keys = Ed25519Signer::key_pair(sk);
    assert_eq!(keys, vec![fixture("fixtrues/ed25519.sk"), fixture("fixtrues/ed25519.pk")]);
}

#[test]
fn key_file_is_key_then_nonce() {
    let blob = ChaCha20Poly1305Aead::key_file([0xaa; 32], [0xbb; 12]);
    assert_eq!(blob.len(), 44);
    assert_eq!(&blob[..32], &[0xaa; 32]);
    assert_eq!(&blob[32..], &[0xbb; 12]);
    let cipher = ChaCha20Poly1305Aead::load(&blob).unwrap();
    let built = ChaCha20Poly1305Aead::new([0xaa; 32], [0xbb; 12]);
    assert_eq!(cipher.encrypt(b"hello world"), built.encrypt(b"hello world"));
}

#[test]
fn scenario_hashing_key_from_generation_to_verification() {
    let keys = process_gen_key(TextSignFormat::Blake3).unwrap();
    let key_file = keys[0].clone();
    let sig = process_sign(b"hello world", &key_file, TextSignFormat::Blake3).unwrap();
    assert_eq!(process_verify(b"hello world", &key_file, &sig, TextSignFormat::Blake3), Ok(true));
    assert_eq!(process_verify(b"hello world!", &key_file, &sig, TextSignFormat::Blake3), Ok(false));
}

#[test]
fn scenario_key_pair_from_generation_to_verification() {
    let keys = process_gen_key(TextSignFormat::Ed25519).unwrap();
    let signer = Ed25519Signer::load(&keys[0]).unwrap();
    let signed = signer.sign(b"hello world").unwrap();
    let verifier = Ed25519Verifier::load(&keys[1]).unwrap();
    assert_eq!(verifier.verify(b"hello world", &signed), Ok(true));

    let fresh = process_gen_key(TextSignFormat::Ed25519).unwrap();
    let stranger = Ed25519Verifier::load(&fresh[1]).unwrap();
    assert_eq!(stranger.verify(b"hello world", &signed), Ok(false));
}

#[test]
fn scenario_cipher_key_from_generation_to_decryption() {
    let keys = process_gen_key(TextSignFormat::ChaCha20Poly1305).unwrap();
    let cipher = ChaCha20Poly1305Aead::load(&keys[0]).unwrap();
    let text = cipher.encrypt(b"hello world").unwrap();
    assert_eq!(cipher.decrypt(text.as_bytes()), Ok("hello world".to_string()));

    let mut raw = decode(text.as_bytes(), Base64Format::UrlSafe).unwrap();
    raw[3] ^= 0xff;
    let flipped = encode(&raw, Base64Format::UrlSafe).unwrap();
    assert_eq!(cipher.decrypt(flipped.as_bytes()), Err(TextError::Crypto));
}

#[test]
fn scenario_sign_with_a_cipher_key_is_unsupported() {
    let keys = process_gen_key(TextSignFormat::ChaCha20Poly1305).unwrap();
    assert_eq!(
        process_sign(b"hello world", &keys[0], TextSignFormat::ChaCha20Poly1305),
        Err(TextError::UnsupportedOperation {
            format: TextSignFormat::ChaCha20Poly1305,
            operation: Operation::Sign,
        })
    );
}

use base64::engine::general_purpose::URL_SAFE_NO_PAD;
use base64::Engine;
use rcli::{
    process_text_decrypt, process_text_encrypt, process_text_key_generate,
    process_text_nonce_generate, process_text_sign, process_text_verify, Blake3, Chacha2,
    CryptoError, Ed25519Signer, Ed25519Verifier, TextSignFormat,
};

const KEY: &[u8] = b"iCfTwZ7jtMV*@FXZzEE&KCB#SXn7eGCE";

const NONCE: [u8; 12] = [249, 115, 113, 158, 149, 52, 117, 46, 246, 119, 228, 36];

#[test]
fn test_process_text_sign() {
    let format = TextSignFormat::Blake3;
    let sig = process_text_sign(b"hello world", KEY, format).unwrap();
    let ret = process_text_verify(b"hello world", KEY, &sig, format).unwrap();
    assert!(ret);
}

#[test]
fn test_process_text_verify() {
    let format = TextSignFormat::Blake3;
    let sig = process_text_sign(b"hello world", KEY, format).unwrap();
    let ret = process_text_verify(b"hello world", KEY, &sig, format).unwrap();
    assert!(ret);
}

#[test]
fn test_process_encrypt() {
    println!("key: {}", String::from_utf8(KEY.to_vec()).unwrap());
    let ret = process_text_encrypt(b"hello world", KEY, &NONCE).unwrap();
    let ret = URL_SAFE_NO_PAD.encode(ret);
    println!("encrypt:{:?}", ret);
}

#[test]
fn test_process_decrypt() {
    let encrypt = "1IWwtO0MRNLgCzkujDhmbiihVd9D6WnKWbGl".to_string();
    let content = URL_SAFE_NO_PAD.decode(encrypt).unwrap();
    let ret = process_text_decrypt(&content, KEY, &NONCE).unwrap();
    let ret = String::from_utf8(ret).unwrap();
    println!("{}", ret);
    assert_eq!(ret, "hello world");
}

#[test]
fn test_sign_round_trip_ed25519() {
    let bundle = process_text_key_generate(TextSignFormat::Ed25519).unwrap();
    assert_eq!(bundle.len(), 2);
    assert_eq!(bundle[0].0, "ed25519.sk");
    assert_eq!(bundle[1].0, "ed25519.pk");
    let sk = &bundle[0].1;
    let pk = &bundle[1].1;
    assert_eq!(sk.len(), 32);
    assert_eq!(pk.len(), 32);

    let sig = process_text_sign(b"hello world", sk, TextSignFormat::Ed25519).unwrap();
    assert_eq!(sig.len(), 64);
    let ret = process_text_verify(b"hello world", pk, &sig, TextSignFormat::Ed25519).unwrap();
    assert!(ret);
}

#[test]
fn test_verify_wrong_key_blake3() {
    let other_key: &[u8] = b"AAAAAAAAAAAAAAAAAAAAAAAAAAAAAAAA";
    let sig = process_text_sign(b"hello world", KEY, TextSignFormat::Blake3).unwrap();
    let ret = process_text_verify(b"hello world", other_key, &sig, TextSignFormat::Blake3).unwrap();
    assert!(!ret);
}

#[test]
fn test_verify_wrong_key_ed25519() {
    let bundle1 = process_text_key_generate(TextSignFormat::Ed25519).unwrap();
    let bundle2 = process_text_key_generate(TextSignFormat::Ed25519).unwrap();
    let sk1 = &bundle1[0].1;
    let pk2 = &bundle2[1].1;
    assert_ne!(bundle1[1].1, bundle2[1].1);

    let sig = process_text_sign(b"hello world", sk1, TextSignFormat::Ed25519).unwrap();
    let ret = process_text_verify(b"hello world", pk2, &sig, TextSignFormat::Ed25519).unwrap();
    assert!(!ret);
}

#[test]
fn test_signature_not_input() {
    let sig = process_text_sign(b"hello world", KEY, TextSignFormat::Blake3).unwrap();
    assert_eq!(sig.len(), 32);
    assert_ne!(sig.as_slice(), b"hello world".as_slice());
    assert_ne!(sig.as_slice(), KEY);
}

#[test]
fn test_encrypt_decrypt_round_trip() {
    let ct = process_text_encrypt(b"hello world", KEY, &NONCE).unwrap();
    assert_eq!(ct.len(), b"hello world".len() + 16);
    assert_ne!(&ct[..11], b"hello world".as_slice());
    let pt = process_text_decrypt(&ct, KEY, &NONCE).unwrap();
    assert_eq!(pt, b"hello world".to_vec());
}

#[test]
fn test_decrypt_rejects_every_bit_flip() {
    let ct = process_text_encrypt(b"hello world", KEY, &NONCE).unwrap();
    for byte in 0..ct.len() {
        for bit in 0..8 {
            let mut tampered = ct.clone();
            tampered[byte] ^= 1u8 << bit;
            let ret = process_text_decrypt(&tampered, KEY, &NONCE);
            assert_eq!(ret, Err(CryptoError::AuthenticationFailure));
        }
    }
}

#[test]
fn test_decrypt_wrong_key_fails() {
    let other_key: &[u8] = b"AAAAAAAAAAAAAAAAAAAAAAAAAAAAAAAA";
    let ct = process_text_encrypt(b"hello world", KEY, &NONCE).unwrap();
    let ret = process_text_decrypt(&ct, other_key, &NONCE);
    assert_eq!(ret, Err(CryptoError::AuthenticationFailure));
}

#[test]
fn test_decrypt_wrong_nonce_fails() {
    let other_nonce = [0u8; 12];
    let ct = process_text_encrypt(b"hello world", KEY, &NONCE).unwrap();
    let ret = process_text_decrypt(&ct, KEY, &other_nonce);
    assert_eq!(ret, Err(CryptoError::AuthenticationFailure));
}

#[test]
fn test_key_length_rejected_everywhere() {
    let short: &[u8] = b"too-short";
    let long: &[u8] = b"iCfTwZ7jtMV*@FXZzEE&KCB#SXn7eGCE-and-more";
    assert_eq!(
        Blake3::try_new(short).err(),
        Some(CryptoError::InvalidKeyLength)
    );
    assert_eq!(
        Blake3::try_new(long).err(),
        Some(CryptoError::InvalidKeyLength)
    );
    assert_eq!(
        Ed25519Signer::try_new(short).err(),
        Some(CryptoError::InvalidKeyLength)
    );
    assert_eq!(
        Ed25519Verifier::try_new(short).err(),
        Some(CryptoError::InvalidKeyLength)
    );
    assert_eq!(
        Chacha2::try_new(short).err(),
        Some(CryptoError::InvalidKeyLength)
    );
    assert_eq!(
        process_text_sign(b"x", short, TextSignFormat::Blake3),
        Err(CryptoError::InvalidKeyLength)
    );
    assert_eq!(
        process_text_sign(b"x", short, TextSignFormat::Ed25519),
        Err(CryptoError::InvalidKeyLength)
    );
    assert_eq!(
        process_text_verify(b"x", short, b"sig", TextSignFormat::Blake3),
        Err(CryptoError::InvalidKeyLength)
    );
    assert_eq!(
        process_text_encrypt(b"x", short, &NONCE),
        Err(CryptoError::InvalidKeyLength)
    );
    assert_eq!(
        process_text_decrypt(b"x", short, &NONCE),
        Err(CryptoError::InvalidKeyLength)
    );
}

#[test]
fn test_short_signature_rejected() {
    let bundle = process_text_key_generate(TextSignFormat::Ed25519).unwrap();
    let pk = &bundle[1].1;
    let short_sig = [0u8; 63];
    let ret = process_text_verify(b"hello world", pk, &short_sig, TextSignFormat::Ed25519);
    assert_eq!(ret, Err(CryptoError::MalformedSignature));
}

#[test]
fn test_trailing_signature_bytes_ignored() {
    let bundle = process_text_key_generate(TextSignFormat::Ed25519).unwrap();
    let sk = &bundle[0].1;
    let pk = &bundle[1].1;
    let mut sig = process_text_sign(b"hello world", sk, TextSignFormat::Ed25519).unwrap();
    sig.push(0xAB);
    sig.push(0xCD);
    let ret = process_text_verify(b"hello world", pk, &sig, TextSignFormat::Ed25519).unwrap();
    assert!(ret);
}

#[test]
fn test_invalid_public_key_rejected() {
    let mut rejected = 0;
    let mut key = [0u8; 32];
    for b in 0..=255u8 {
        key[0] = b;
        if Ed25519Verifier::try_new(&key).err() == Some(CryptoError::InvalidPublicKey) {
            rejected += 1;
        }
    }
    assert!(rejected > 0);
}

#[test]
fn test_nonce_length_rejected() {
    assert_eq!(
        process_text_encrypt(b"x", KEY, b"short"),
        Err(CryptoError::InvalidNonceLength)
    );
    assert_eq!(
        process_text_decrypt(b"xxxxxxxxxxxxxxxxxxxx", KEY, b"0123456789abc"),
        Err(CryptoError::InvalidNonceLength)
    );
}

#[test]
fn test_keyed_hash_key_generate() {
    let bundle = process_text_key_generate(TextSignFormat::Blake3).unwrap();
    assert_eq!(bundle.len(), 1);
    assert_eq!(bundle[0].0, "blake3.txt");
    assert_eq!(bundle[0].1.len(), 32);
    let key = &bundle[0].1;
    let sig = process_text_sign(b"hello world", key, TextSignFormat::Blake3).unwrap();
    let ret = process_text_verify(b"hello world", key, &sig, TextSignFormat::Blake3).unwrap();
    assert!(ret);
}

#[test]
fn test_nonce_generate() {
    let bundle = process_text_nonce_generate().unwrap();
    assert_eq!(bundle.len(), 1);
    assert_eq!(bundle[0].0, "nonce.txt");
    assert_eq!(bundle[0].1.len(), 12);
}

#[test]
fn test_concrete_scenario() {
    let input: &[u8] = b"hello world";

    let sig = process_text_sign(input, KEY, TextSignFormat::Blake3).unwrap();
    assert!(process_text_verify(input, KEY, &sig, TextSignFormat::Blake3).unwrap());

    let bundle = process_text_key_generate(TextSignFormat::Ed25519).unwrap();
    let sig = process_text_sign(input, &bundle[0].1, TextSignFormat::Ed25519).unwrap();
    assert!(process_text_verify(input, &bundle[1].1, &sig, TextSignFormat::Ed25519).unwrap());

    let ct = process_text_encrypt(input, KEY, &NONCE).unwrap();
    let pt = process_text_decrypt(&ct, KEY, &NONCE).unwrap();
    assert_eq!(pt, input.to_vec());
}

//! The text cryptographic subsystem: keyed-hash signing, asymmetric signing,
//! and authenticated symmetric encryption, with the key and nonce generation
//! that feeds it.
//!
//! The primitives themselves come from outside crates and are taken on
//! trust under the names declared at the top of this module; everything
//! around them — key validation, dispatch, signature shape handling,
//! error mapping — is verified against those names.

use chacha20poly1305::aead::Aead;
use chacha20poly1305::KeyInit;
use ed25519_dalek::Signer;
use ed25519_dalek::Verifier;
use vstd::prelude::*;

use crate::cli::TextSignFormat;
use crate::error::CryptoError;
use crate::genpass::{byte_in_enabled_class, process_genpass};
use crate::rng::os_random_bytes;

verus! {

/// The 32-byte keyed Blake3 hash of `data` under `key`.
pub uninterp spec fn blake3_keyed_hash(key: Seq<u8>, data: Seq<u8>) -> Seq<u8>;

/// The 64-byte Ed25519 signature over `msg` by the signing key with seed
/// `seed` (Ed25519 signing is deterministic).
pub uninterp spec fn ed25519_sign_of(seed: Seq<u8>, msg: Seq<u8>) -> Seq<u8>;

/// The 32-byte Ed25519 public key derived from `seed`.
pub uninterp spec fn ed25519_public_of(seed: Seq<u8>) -> Seq<u8>;

/// Whether 32 bytes decode to a usable Ed25519 verifying key.
pub uninterp spec fn ed25519_pk_valid(pk: Seq<u8>) -> bool;

/// Whether the Ed25519 verifier accepts the 64-byte signature `sig` over
/// `msg` under the public key `pk`.
pub uninterp spec fn ed25519_verify_ok(pk: Seq<u8>, msg: Seq<u8>, sig: Seq<u8>) -> bool;

/// The ChaCha20-Poly1305 sealing of `pt` under `key` and `nonce`:
/// the encrypted payload with its authentication tag appended.
pub uninterp spec fn chacha_seal(key: Seq<u8>, nonce: Seq<u8>, pt: Seq<u8>) -> Seq<u8>;

/// What ChaCha20-Poly1305 decryption of `ct` under `key` and `nonce`
/// returns: the recovered plaintext, or nothing when the tag does not
/// verify.
pub uninterp spec fn chacha_open(key: Seq<u8>, nonce: Seq<u8>, ct: Seq<u8>) -> Option<Seq<u8>>;

/// The longest plaintext the one-shot cipher accepts: its block counter
/// runs out at 64 bytes for each of `u32::MAX - 1` blocks.
pub const MAX_ONESHOT_LEN: u64 = 274877906880;

/// Relies on `TryInto` from a byte slice into `[u8; 32]`: it succeeds
/// exactly on length 32 and copies the bytes unchanged.
#[verifier::external_body]
fn to_key32(key: &[u8]) -> (r: [u8; 32])
    requires
        key@.len() == 32,
    ensures
        r@ == key@,
{
    key.try_into().unwrap()
}

/// Relies on `blake3::keyed_hash`: a 32-byte tag computed from the 32-byte
/// key and the whole input, a function of the two alone.
#[verifier::external_body]
fn blake3_keyed(key: &[u8], data: &[u8]) -> (r: Vec<u8>)
    requires
        key@.len() == 32,
    ensures
        r@ == blake3_keyed_hash(key@, data@),
        r@.len() == 32,
{
    let key32: &[u8; 32] = key.try_into().unwrap();
    blake3::keyed_hash(key32, data).as_bytes().to_vec()
}

/// Relies on `ed25519_dalek::SigningKey::{from_bytes, sign}`: Ed25519
/// signing is deterministic, so the 64-byte signature is a function of seed
/// and message alone, and the crate guarantees that it verifies under the
/// public key derived from the same seed.
#[verifier::external_body]
fn dalek_sign(seed: &[u8], msg: &[u8]) -> (r: Vec<u8>)
    requires
        seed@.len() == 32,
    ensures
        r@ == ed25519_sign_of(seed@, msg@),
        r@.len() == 64,
        ed25519_verify_ok(ed25519_public_of(seed@), msg@, r@),
{
    let seed32: &[u8; 32] = seed.try_into().unwrap();
    let sk = ed25519_dalek::SigningKey::from_bytes(seed32);
    sk.sign(msg).to_bytes().to_vec()
}

/// Relies on `ed25519_dalek::SigningKey::{from_bytes, verifying_key}`: the
/// public key is derived from the seed alone, is 32 bytes, and decodes back
/// to a usable verifying key.
#[verifier::external_body]
fn dalek_public_key(seed: &[u8]) -> (r: Vec<u8>)
    requires
        seed@.len() == 32,
    ensures
        r@ == ed25519_public_of(seed@),
        r@.len() == 32,
        ed25519_pk_valid(r@),
{
    let seed32: &[u8; 32] = seed.try_into().unwrap();
    ed25519_dalek::SigningKey::from_bytes(seed32).verifying_key().to_bytes().to_vec()
}

/// Relies on `ed25519_dalek::VerifyingKey::from_bytes`: 32 bytes decode to a
/// verifying key exactly when they compress a point of the curve, a
/// condition on the bytes alone.
#[verifier::external_body]
fn dalek_pk_check(pk: &[u8]) -> (r: bool)
    requires
        pk@.len() == 32,
    ensures
        r == ed25519_pk_valid(pk@),
{
    let pk32: &[u8; 32] = pk.try_into().unwrap();
    ed25519_dalek::VerifyingKey::from_bytes(pk32).is_ok()
}

/// Relies on `ed25519_dalek::VerifyingKey::verify` (with `from_bytes` and
/// `Signature::from_bytes` converting the arguments): acceptance of a
/// 64-byte signature is a function of public key, message and signature
/// alone.
#[verifier::external_body]
fn dalek_verify(pk: &[u8], msg: &[u8], sig: &[u8]) -> (r: bool)
    requires
        pk@.len() == 32,
        ed25519_pk_valid(pk@),
        sig@.len() == 64,
    ensures
        r == ed25519_verify_ok(pk@, msg@, sig@),
{
    let pk32: &[u8; 32] = pk.try_into().unwrap();
    let key = ed25519_dalek::VerifyingKey::from_bytes(pk32).unwrap();
    let sig64: &[u8; 64] = sig.try_into().unwrap();
    let signature = ed25519_dalek::Signature::from_bytes(sig64);
    key.verify(msg, &signature).is_ok()
}

/// Relies on `chacha20poly1305::ChaCha20Poly1305::{new_from_slice, encrypt}`:
/// under a 32-byte key and a 12-byte nonce the ciphertext is the plaintext's
/// sealing, 16 tag bytes longer than the plaintext, and decrypting it under
/// the same key and nonce yields the plaintext back.  The cipher accepts any
/// plaintext shorter than its block-counter bound.
#[verifier::external_body]
fn chacha_encrypt(key: &[u8], nonce: &[u8], pt: &[u8]) -> (r: Vec<u8>)
    requires
        key@.len() == 32,
        nonce@.len() == 12,
        pt@.len() < MAX_ONESHOT_LEN,
    ensures
        r@ == chacha_seal(key@, nonce@, pt@),
        r@.len() == pt@.len() + 16,
        chacha_open(key@, nonce@, r@) == Some(pt@),
{
    let cipher = chacha20poly1305::ChaCha20Poly1305::new_from_slice(key).unwrap();
    let nonce = chacha20poly1305::aead::generic_array::GenericArray::from_slice(nonce);
    cipher.encrypt(nonce, pt).unwrap()
}

/// Relies on `chacha20poly1305::ChaCha20Poly1305::{new_from_slice, decrypt}`:
/// decryption is a function of key, nonce and ciphertext alone; it yields a
/// plaintext when the authentication tag verifies and fails otherwise.
#[verifier::external_body]
fn chacha_decrypt(key: &[u8], nonce: &[u8], ct: &[u8]) -> (r: Option<Vec<u8>>)
    requires
        key@.len() == 32,
        nonce@.len() == 12,
    ensures
        match r {
            Some(pt) => chacha_open(key@, nonce@, ct@) == Some(pt@),
            None => chacha_open(key@, nonce@, ct@) is None,
        },
{
    let cipher = chacha20poly1305::ChaCha20Poly1305::new_from_slice(key).unwrap();
    let nonce = chacha20poly1305::aead::generic_array::GenericArray::from_slice(nonce);
    cipher.decrypt(nonce, ct).ok()
}

/// Two byte slices hold the same bytes.
fn bytes_eq(a: &[u8], b: &[u8]) -> (r: bool)
    ensures
        r == (a@ == b@),
{
    if a.len() != b.len() {
        assert(a@ !~= b@);
        return false;
    }
    let mut i: usize = 0;
    while i < a.len()
        invariant
            i <= a@.len(),
            a@.len() == b@.len(),
            forall|j: int| 0 <= j < i ==> a@[j] == b@[j],
        decreases a@.len() - i,
    {
        if a[i] != b[i] {
            return false;
        }
        i = i + 1;
    }
    assert(a@ =~= b@);
    true
}

/// Capability to sign a whole input.
pub trait TextSigner {
    /// The signature this signer produces over `msg`.
    spec fn sign_spec(&self, msg: Seq<u8>) -> Seq<u8>;

    /// Further facts that hold of every signature this signer produces.
    spec fn sign_post(&self, msg: Seq<u8>, sig: Seq<u8>) -> bool;

    /// Signs the whole input.
    fn sign(&self, msg: &[u8]) -> (r: Vec<u8>)
        ensures
            r@ == self.sign_spec(msg@),
            self.sign_post(msg@, r@);
}

/// Capability to verify a signature over a whole input.
pub trait TextVerifier {
    /// Whether a signature buffer has a shape this verifier can check.
    spec fn accepts_sig(&self, sig: Seq<u8>) -> bool;

    /// Whether an acceptable signature matches `msg`.
    spec fn verify_spec(&self, msg: Seq<u8>, sig: Seq<u8>) -> bool;

    /// Checks the signature; a mismatch is the answer `false`, only a
    /// buffer of unacceptable shape is an error.
    fn verify(&self, msg: &[u8], sig: &[u8]) -> (r: Result<bool, CryptoError>)
        ensures
            self.accepts_sig(sig@) ==> r == Ok::<bool, CryptoError>(self.verify_spec(msg@, sig@)),
            !self.accepts_sig(sig@) ==> r == Err::<bool, CryptoError>(
                CryptoError::MalformedSignature,
            );
}

/// Capability to encrypt a whole plaintext under an explicit nonce.
pub trait TextEncrypt {
    /// The ciphertext produced for `pt` under `nonce`.
    spec fn encrypt_spec(&self, pt: Seq<u8>, nonce: Seq<u8>) -> Seq<u8>;

    /// Further facts that hold of every produced ciphertext.
    spec fn encrypt_post(&self, pt: Seq<u8>, nonce: Seq<u8>, ct: Seq<u8>) -> bool;

    /// Encrypts the whole plaintext; the nonce must be 12 bytes.
    fn text_encrypt(&self, pt: &[u8], nonce: &[u8]) -> (r: Result<Vec<u8>, CryptoError>)
        requires
            pt@.len() < MAX_ONESHOT_LEN,
        ensures
            nonce@.len() != 12 ==> r == Err::<Vec<u8>, CryptoError>(
                CryptoError::InvalidNonceLength,
            ),
            nonce@.len() == 12 ==> match r {
                Ok(ct) => ct@ == self.encrypt_spec(pt@, nonce@) && self.encrypt_post(
                    pt@,
                    nonce@,
                    ct@,
                ),
                Err(_) => false,
            };
}

/// Capability to decrypt a whole ciphertext under an explicit nonce.
pub trait TextDecrypt {
    /// The plaintext recovered from `ct` under `nonce`, if the ciphertext
    /// authenticates.
    spec fn decrypt_spec(&self, ct: Seq<u8>, nonce: Seq<u8>) -> Option<Seq<u8>>;

    /// Decrypts the whole ciphertext; the nonce must be 12 bytes, and a
    /// ciphertext that fails authentication is rejected.
    fn text_decrypt(&self, ct: &[u8], nonce: &[u8]) -> (r: Result<Vec<u8>, CryptoError>)
        ensures
            nonce@.len() != 12 ==> r == Err::<Vec<u8>, CryptoError>(
                CryptoError::InvalidNonceLength,
            ),
            nonce@.len() == 12 ==> match r {
                Ok(pt) => self.decrypt_spec(ct@, nonce@) == Some(pt@),
                Err(e) => self.decrypt_spec(ct@, nonce@) is None && e
                    == CryptoError::AuthenticationFailure,
            };
}

/// The ChaCha20-Poly1305 cipher engine, holding a validated 32-byte key.
pub struct Chacha2 {
    key: [u8; 32],
}

/// The keyed-hash engine, holding a validated 32-byte key.
pub struct Blake3 {
    key: [u8; 32],
}

/// The asymmetric signing engine, holding a validated 32-byte seed.
pub struct Ed25519Signer {
    key: [u8; 32],
}

/// The asymmetric verification engine, holding validated 32-byte public key
/// material that is known to decode to a curve point.
pub struct Ed25519Verifier {
    key: [u8; 32],
}

impl View for Blake3 {
    type V = Seq<u8>;

    closed spec fn view(&self) -> Seq<u8> {
        self.key@
    }
}

impl View for Chacha2 {
    type V = Seq<u8>;

    closed spec fn view(&self) -> Seq<u8> {
        self.key@
    }
}

impl View for Ed25519Signer {
    type V = Seq<u8>;

    closed spec fn view(&self) -> Seq<u8> {
        self.key@
    }
}

impl View for Ed25519Verifier {
    type V = Seq<u8>;

    closed spec fn view(&self) -> Seq<u8> {
        self.key@
    }
}

impl Ed25519Verifier {
    /// Public key material always decodes to a curve point.
    #[verifier::type_invariant]
    closed spec fn wf(self) -> bool {
        ed25519_pk_valid(self.key@)
    }
}

impl TextSigner for Blake3 {
    open spec fn sign_spec(&self, msg: Seq<u8>) -> Seq<u8> {
        blake3_keyed_hash(self@, msg)
    }

    open spec fn sign_post(&self, msg: Seq<u8>, sig: Seq<u8>) -> bool {
        sig.len() == 32
    }

    fn sign(&self, msg: &[u8]) -> (r: Vec<u8>) {
        blake3_keyed(self.key.as_slice(), msg)
    }
}

impl TextVerifier for Blake3 {
    open spec fn accepts_sig(&self, sig: Seq<u8>) -> bool {
        true
    }

    open spec fn verify_spec(&self, msg: Seq<u8>, sig: Seq<u8>) -> bool {
        sig == blake3_keyed_hash(self@, msg)
    }

    fn verify(&self, msg: &[u8], sig: &[u8]) -> (r: Result<bool, CryptoError>) {
        let expected = blake3_keyed(self.key.as_slice(), msg);
        Ok(bytes_eq(expected.as_slice(), sig))
    }
}

impl TextSigner for Ed25519Signer {
    open spec fn sign_spec(&self, msg: Seq<u8>) -> Seq<u8> {
        ed25519_sign_of(self@, msg)
    }

    open spec fn sign_post(&self, msg: Seq<u8>, sig: Seq<u8>) -> bool {
        sig.len() == 64 && ed25519_verify_ok(ed25519_public_of(self@), msg, sig)
    }

    fn sign(&self, msg: &[u8]) -> (r: Vec<u8>) {
        dalek_sign(self.key.as_slice(), msg)
    }
}

impl TextVerifier for Ed25519Verifier {
    open spec fn accepts_sig(&self, sig: Seq<u8>) -> bool {
        sig.len() >= 64
    }

    open spec fn verify_spec(&self, msg: Seq<u8>, sig: Seq<u8>) -> bool {
        ed25519_verify_ok(self@, msg, sig.subrange(0, 64))
    }

    fn verify(&self, msg: &[u8], sig: &[u8]) -> (r: Result<bool, CryptoError>) {
        if sig.len() < 64 {
            return Err(CryptoError::MalformedSignature);
        }
        proof {
            use_type_invariant(self);
        }
        Ok(dalek_verify(self.key.as_slice(), msg, &sig[0..64]))
    }
}

impl TextEncrypt for Chacha2 {
    open spec fn encrypt_spec(&self, pt: Seq<u8>, nonce: Seq<u8>) -> Seq<u8> {
        chacha_seal(self@, nonce, pt)
    }

    open spec fn encrypt_post(&self, pt: Seq<u8>, nonce: Seq<u8>, ct: Seq<u8>) -> bool {
        ct.len() == pt.len() + 16 && chacha_open(self@, nonce, ct) == Some(pt)
    }

    fn text_encrypt(&self, pt: &[u8], nonce: &[u8]) -> (r: Result<Vec<u8>, CryptoError>) {
        if nonce.len() != 12 {
            return Err(CryptoError::InvalidNonceLength);
        }
        Ok(chacha_encrypt(self.key.as_slice(), nonce, pt))
    }
}

impl TextDecrypt for Chacha2 {
    open spec fn decrypt_spec(&self, ct: Seq<u8>, nonce: Seq<u8>) -> Option<Seq<u8>> {
        chacha_open(self@, nonce, ct)
    }

    fn text_decrypt(&self, ct: &[u8], nonce: &[u8]) -> (r: Result<Vec<u8>, CryptoError>) {
        if nonce.len() != 12 {
            return Err(CryptoError::InvalidNonceLength);
        }
        match chacha_decrypt(self.key.as_slice(), nonce, ct) {
            Some(pt) => Ok(pt),
            None => Err(CryptoError::AuthenticationFailure),
        }
    }
}

impl Blake3 {
    /// Builds the engine from raw key bytes, rejecting any length but 32.
    pub fn try_new(key: &[u8]) -> (r: Result<Self, CryptoError>)
        ensures
            match r {
                Ok(engine) => key@.len() == 32 && engine@ == key@,
                Err(e) => key@.len() != 32 && e == CryptoError::InvalidKeyLength,
            },
    {
        if key.len() != 32 {
            return Err(CryptoError::InvalidKeyLength);
        }
        Ok(Blake3::new(to_key32(key)))
    }

    /// Builds the engine from an exactly 32-byte key.
    pub fn new(key: [u8; 32]) -> (r: Self)
        ensures
            r@ == key@,
    {
        Self { key }
    }

    /// One fresh 32-byte symmetric key, drawn from the password generator
    /// with every character class enabled, under its fixed artifact name.
    fn generate() -> (r: Result<Vec<(String, Vec<u8>)>, CryptoError>)
        ensures
            match r {
                Ok(m) => keyed_hash_bundle_ok(m@),
                Err(_) => false,
            },
    {
        let key = match process_genpass(32, true, true, true, true) {
            Ok(k) => k,
            Err(e) => return Err(e),
        };
        let bytes = ascii_bytes(&key);
        let mut map: Vec<(String, Vec<u8>)> = Vec::new();
        map.push(("blake3.txt".to_owned(), bytes));
        Ok(map)
    }
}

/// The key-generation bundle of the keyed-hash family: one artifact, the
/// 32-byte symmetric key, every byte from an enabled character class.
pub open spec fn keyed_hash_bundle_ok(m: Seq<(String, Vec<u8>)>) -> bool {
    &&& m.len() == 1
    &&& m[0].0@ == "blake3.txt"@
    &&& m[0].1@.len() == 32
    &&& forall|i: int|
        0 <= i < m[0].1@.len() ==> byte_in_enabled_class(
            #[trigger] m[0].1@[i],
            true,
            true,
            true,
            true,
        )
}

/// The key-generation bundle of the asymmetric family: the 32-byte secret
/// seed and the 32-byte public key derived from it.
pub open spec fn asymmetric_bundle_ok(m: Seq<(String, Vec<u8>)>) -> bool {
    &&& m.len() == 2
    &&& m[0].0@ == "ed25519.sk"@
    &&& m[0].1@.len() == 32
    &&& m[1].0@ == "ed25519.pk"@
    &&& m[1].1@ == ed25519_public_of(m[0].1@)
    &&& m[1].1@.len() == 32
    &&& ed25519_pk_valid(m[1].1@)
}

/// The nonce bundle: one artifact of 12 fresh random bytes.
pub open spec fn nonce_bundle_ok(m: Seq<(String, Vec<u8>)>) -> bool {
    &&& m.len() == 1
    &&& m[0].0@ == "nonce.txt"@
    &&& m[0].1@.len() == 12
}

/// The bytes of an ASCII string, one per character.
fn ascii_bytes(s: &String) -> (r: Vec<u8>)
    requires
        forall|i: int| 0 <= i < s@.len() ==> (#[trigger] s@[i] as u32) < 128,
    ensures
        r@.len() == s@.len(),
        forall|i: int| 0 <= i < r@.len() ==> #[trigger] r@[i] as u32 == s@[i] as u32,
{
    broadcast use vstd::string::is_ascii_spec_bytes;

    let t = s.as_str();
    assert(vstd::string::is_ascii(t)) by {
        assert forall|i: int| 0 <= i < t@.len() implies '\0' <= #[trigger] t@[i] <= '\u{7f}' by {
            assert((s@[i] as u32) < 128);
            crate::genpass::lemma_ascii_code_bound(s@[i]);
            assert(t@[i] == s@[i]);
        }
    }
    let r = t.as_bytes_vec();
    assert(r@ =~= Seq::new(t@.len(), |i: int| t@[i] as u8));
    assert forall|i: int| 0 <= i < r@.len() implies #[trigger] r@[i] as u32 == s@[i] as u32 by {
        assert(r@[i] == t@[i] as u8);
    }
    r
}

impl Ed25519Signer {
    /// Builds the engine from raw seed bytes, rejecting any length but 32.
    pub fn try_new(key: &[u8]) -> (r: Result<Self, CryptoError>)
        ensures
            match r {
                Ok(engine) => key@.len() == 32 && engine@ == key@,
                Err(e) => key@.len() != 32 && e == CryptoError::InvalidKeyLength,
            },
    {
        if key.len() != 32 {
            return Err(CryptoError::InvalidKeyLength);
        }
        let key32 = to_key32(key);
        Ok(Ed25519Signer::new(&key32))
    }

    /// Builds the engine from an exactly 32-byte seed.
    pub fn new(key: &[u8; 32]) -> (r: Self)
        ensures
            r@ == key@,
    {
        Self { key: *key }
    }

    /// A fresh keypair from the operating system's entropy source: the
    /// secret seed and the public key derived from it, under their fixed
    /// artifact names.
    fn generate() -> (r: Result<Vec<(String, Vec<u8>)>, CryptoError>)
        ensures
            match r {
                Ok(m) => asymmetric_bundle_ok(m@),
                Err(_) => false,
            },
    {
        let sk = os_random_bytes(32);
        let pk = dalek_public_key(sk.as_slice());
        let mut map: Vec<(String, Vec<u8>)> = Vec::new();
        map.push(("ed25519.sk".to_owned(), sk));
        map.push(("ed25519.pk".to_owned(), pk));
        Ok(map)
    }
}

impl Chacha2 {
    /// Builds the cipher from raw key bytes, rejecting any length but 32.
    pub fn try_new(key: &[u8]) -> (r: Result<Self, CryptoError>)
        ensures
            match r {
                Ok(engine) => key@.len() == 32 && engine@ == key@,
                Err(e) => key@.len() != 32 && e == CryptoError::InvalidKeyLength,
            },
    {
        if key.len() != 32 {
            return Err(CryptoError::InvalidKeyLength);
        }
        Ok(Chacha2::new(to_key32(key)))
    }

    /// Builds the cipher from an exactly 32-byte key.
    pub fn new(key: [u8; 32]) -> (r: Self)
        ensures
            r@ == key@,
    {
        Self { key }
    }
}

impl Ed25519Verifier {
    /// Builds the engine from raw public key bytes, rejecting any length but
    /// 32 and any 32 bytes that do not decode to a curve point.
    pub fn try_new(key: &[u8]) -> (r: Result<Self, CryptoError>)
        ensures
            match r {
                Ok(engine) => key@.len() == 32 && ed25519_pk_valid(key@) && engine@ == key@,
                Err(e) => {
                    ||| (key@.len() != 32 && e == CryptoError::InvalidKeyLength)
                    ||| (key@.len() == 32 && !ed25519_pk_valid(key@) && e
                        == CryptoError::InvalidPublicKey)
                },
            },
    {
        if key.len() != 32 {
            return Err(CryptoError::InvalidKeyLength);
        }
        if !dalek_pk_check(key) {
            return Err(CryptoError::InvalidPublicKey);
        }
        Ok(Self { key: to_key32(key) })
    }
}

/// Law: a keyed-hash signature produced over `msg` verifies under the same
/// engine, whatever the key and message.
pub proof fn lemma_keyed_hash_round_trip(engine: Blake3, msg: Seq<u8>)
    ensures
        engine.verify_spec(msg, engine.sign_spec(msg)),
{
}

/// Signs the whole input with the engine selected by `format`, after
/// validating the key.
pub fn process_text_sign(msg: &[u8], key: &[u8], format: TextSignFormat) -> (r: Result<
    Vec<u8>,
    CryptoError,
>)
    ensures
        match r {
            Ok(sig) => key@.len() == 32 && (match format {
                TextSignFormat::Blake3 => sig@ == blake3_keyed_hash(key@, msg@) && sig@.len()
                    == 32,
                TextSignFormat::Ed25519 => sig@ == ed25519_sign_of(key@, msg@) && sig@.len() == 64
                    && ed25519_verify_ok(ed25519_public_of(key@), msg@, sig@),
            }),
            Err(e) => key@.len() != 32 && e == CryptoError::InvalidKeyLength,
        },
{
    match format {
        TextSignFormat::Blake3 => {
            let signer = match Blake3::try_new(key) {
                Ok(s) => s,
                Err(e) => return Err(e),
            };
            Ok(signer.sign(msg))
        },
        TextSignFormat::Ed25519 => {
            let signer = match Ed25519Signer::try_new(key) {
                Ok(s) => s,
                Err(e) => return Err(e),
            };
            Ok(signer.sign(msg))
        },
    }
}

/// Verifies a signature with the engine selected by `format`, after
/// validating the key; a mismatch is the answer `false`, never an error.
pub fn process_text_verify(msg: &[u8], key: &[u8], sig: &[u8], format: TextSignFormat) -> (r:
    Result<bool, CryptoError>)
    ensures
        match r {
            Ok(b) => key@.len() == 32 && (match format {
                TextSignFormat::Blake3 => b == (sig@ == blake3_keyed_hash(key@, msg@)),
                TextSignFormat::Ed25519 => ed25519_pk_valid(key@) && sig@.len() >= 64 && b
                    == ed25519_verify_ok(key@, msg@, sig@.subrange(0, 64)),
            }),
            Err(e) => {
                ||| (key@.len() != 32 && e == CryptoError::InvalidKeyLength)
                ||| (key@.len() == 32 && format == TextSignFormat::Ed25519 && !ed25519_pk_valid(
                    key@,
                ) && e == CryptoError::InvalidPublicKey)
                ||| (key@.len() == 32 && format == TextSignFormat::Ed25519 && ed25519_pk_valid(
                    key@,
                ) && sig@.len() < 64 && e == CryptoError::MalformedSignature)
            },
        },
{
    match format {
        TextSignFormat::Blake3 => {
            let verifier = match Blake3::try_new(key) {
                Ok(v) => v,
                Err(e) => return Err(e),
            };
            verifier.verify(msg, sig)
        },
        TextSignFormat::Ed25519 => {
            let verifier = match Ed25519Verifier::try_new(key) {
                Ok(v) => v,
                Err(e) => return Err(e),
            };
            verifier.verify(msg, sig)
        },
    }
}

/// Generates the key material of the selected family, as named artifacts
/// for the caller to store.
pub fn process_text_key_generate(format: TextSignFormat) -> (r: Result<
    Vec<(String, Vec<u8>)>,
    CryptoError,
>)
    ensures
        match r {
            Ok(m) => match format {
                TextSignFormat::Blake3 => keyed_hash_bundle_ok(m@),
                TextSignFormat::Ed25519 => asymmetric_bundle_ok(m@),
            },
            Err(_) => false,
        },
{
    match format {
        TextSignFormat::Blake3 => Blake3::generate(),
        TextSignFormat::Ed25519 => Ed25519Signer::generate(),
    }
}

/// Generates a fresh 12-byte nonce, as a named artifact for the caller to
/// store and to transmit alongside the ciphertext.
pub fn process_text_nonce_generate() -> (r: Result<Vec<(String, Vec<u8>)>, CryptoError>)
    ensures
        match r {
            Ok(m) => nonce_bundle_ok(m@),
            Err(_) => false,
        },
{
    let nonce = os_random_bytes(12);
    let mut map: Vec<(String, Vec<u8>)> = Vec::new();
    map.push(("nonce.txt".to_owned(), nonce));
    Ok(map)
}

/// Encrypts the whole plaintext under the key and nonce, after validating
/// both; the ciphertext carries its authentication tag and decrypts back to
/// the plaintext under the same key and nonce.
pub fn process_text_encrypt(pt: &[u8], key: &[u8], nonce: &[u8]) -> (r: Result<
    Vec<u8>,
    CryptoError,
>)
    requires
        pt@.len() < MAX_ONESHOT_LEN,
    ensures
        match r {
            Ok(ct) => {
                &&& key@.len() == 32
                &&& nonce@.len() == 12
                &&& ct@ == chacha_seal(key@, nonce@, pt@)
                &&& ct@.len() == pt@.len() + 16
                &&& chacha_open(key@, nonce@, ct@) == Some(pt@)
            },
            Err(e) => {
                ||| (key@.len() != 32 && e == CryptoError::InvalidKeyLength)
                ||| (key@.len() == 32 && nonce@.len() != 12 && e
                    == CryptoError::InvalidNonceLength)
            },
        },
{
    let cipher = match Chacha2::try_new(key) {
        Ok(c) => c,
        Err(e) => return Err(e),
    };
    cipher.text_encrypt(pt, nonce)
}

/// Decrypts the whole ciphertext under the key and nonce, after validating
/// both; a ciphertext whose tag does not verify is rejected, and every
/// ciphertext that seals some plaintext under this key and nonce yields it
/// back.
pub fn process_text_decrypt(ct: &[u8], key: &[u8], nonce: &[u8]) -> (r: Result<
    Vec<u8>,
    CryptoError,
>)
    ensures
        match r {
            Ok(pt) => {
                &&& key@.len() == 32
                &&& nonce@.len() == 12
                &&& chacha_open(key@, nonce@, ct@) == Some(pt@)
            },
            Err(e) => {
                ||| (key@.len() != 32 && e == CryptoError::InvalidKeyLength)
                ||| (key@.len() == 32 && nonce@.len() != 12 && e
                    == CryptoError::InvalidNonceLength)
                ||| (key@.len() == 32 && nonce@.len() == 12 && chacha_open(key@, nonce@, ct@)
                    is None && e == CryptoError::AuthenticationFailure)
            },
        },
{
    let cipher = match Chacha2::try_new(key) {
        Ok(c) => c,
        Err(e) => return Err(e),
    };
    cipher.text_decrypt(ct, nonce)
}

} // verus!

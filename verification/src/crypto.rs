//! Cryptographic primitives: XChaCha20-Poly1305 authenticated encryption,
//! Ed25519 signatures, X25519 key agreement, Argon2id and HKDF-SHA256 key
//! derivation and SHA-256 hashing.
//!
//! The primitives themselves are the outside crates' (`chacha20poly1305`,
//! `ed25519-dalek`, `x25519-dalek`, `argon2`, `hkdf`, `sha2`); their results
//! are named below and the library's own logic is proved over those names.

use vstd::prelude::*;
use vstd::string::StringSliceAdditionalSpecFns;
use vstd::array::array_as_slice;
use vstd::slice::slice_to_vec;
use chacha20poly1305::aead::{Aead, KeyInit};
use ed25519_dalek::{Signer, Verifier};
use sha2::Digest;
use crate::codec::{hex_encode, hex_text};
use crate::entropy::{os_random_24, os_random_32};

verus! {

// ───────────────────────────── names of outside results ─────────────────────────────

/// The XChaCha20-Poly1305 ciphertext (encrypted bytes followed by the
/// 16-byte tag) of a plaintext under a key and a 24-byte nonce, with no
/// associated data.
pub uninterp spec fn xchacha20poly1305_seal(key: Seq<u8>, nonce: Seq<u8>, plaintext: Seq<u8>) -> Seq<u8>;

/// What XChaCha20-Poly1305 decryption gives for a ciphertext under a key
/// and nonce: the plaintext, or nothing when authentication fails.
pub uninterp spec fn xchacha20poly1305_open(key: Seq<u8>, nonce: Seq<u8>, ciphertext: Seq<u8>) -> Option<Seq<u8>>;

/// The 32-byte key that Argon2id with the default parameters (version 0x13,
/// m = 19456 KiB, t = 2, p = 1) derives from a password and a salt.
pub uninterp spec fn argon2id_default_key(password: Seq<u8>, salt: Seq<u8>) -> Seq<u8>;

/// The first 32 bytes that HKDF-SHA256 with no salt expands from a secret
/// and an info string.
pub uninterp spec fn hkdf_sha256_key(secret: Seq<u8>, info: Seq<u8>) -> Seq<u8>;

/// The SHA-256 digest of some bytes.
pub uninterp spec fn sha256_digest(data: Seq<u8>) -> Seq<u8>;

/// The Ed25519 public key of a 32-byte secret key.
pub uninterp spec fn ed25519_public_key(secret: Seq<u8>) -> Seq<u8>;

/// The 64-byte Ed25519 signature of a message under a 32-byte secret key.
pub uninterp spec fn ed25519_signature(secret: Seq<u8>, message: Seq<u8>) -> Seq<u8>;

/// Whether 32 bytes decode to an Ed25519 public key; when they do not, the
/// text of the refusal.
pub uninterp spec fn ed25519_key_check(public: Seq<u8>) -> Result<(), Seq<char>>;

/// Whether an Ed25519 public key accepts a 64-byte signature of a message.
pub uninterp spec fn ed25519_accepts(public: Seq<u8>, message: Seq<u8>, signature: Seq<u8>) -> bool;

/// The X25519 public key of a 32-byte static secret.
pub uninterp spec fn x25519_public_key(secret: Seq<u8>) -> Seq<u8>;

/// The X25519 shared secret of a 32-byte static secret and a public key.
pub uninterp spec fn x25519_shared_secret(secret: Seq<u8>, their_public: Seq<u8>) -> Seq<u8>;

// ───────────────────────────── trusted calls ─────────────────────────────

/// Whether XChaCha20-Poly1305 takes a message of `len` bytes: it refuses one
/// of 2^32 - 1 blocks of 64 bytes or more.
pub open spec fn aead_accepts_len(len: int) -> bool {
    len / 64 < 0xFFFF_FFFF
}

/// Encrypts through `XChaCha20Poly1305::encrypt` (from `chacha20poly1305`),
/// which refuses a message of too many blocks and otherwise returns the
/// ciphertext followed by the 16-byte tag.
#[verifier::external_body]
fn aead_seal(key: &[u8; 32], nonce: &[u8], plaintext: &[u8]) -> (r: Option<Vec<u8>>)
    requires
        nonce@.len() == 24,
    ensures
        r is Some <==> aead_accepts_len(plaintext@.len() as int),
        r matches Some(c) ==> c@ == xchacha20poly1305_seal(key@, nonce@, plaintext@),
        r matches Some(c) ==> c@.len() == plaintext@.len() + 16,
{
    let cipher = chacha20poly1305::XChaCha20Poly1305::new(key.into());
    cipher.encrypt(chacha20poly1305::XNonce::from_slice(nonce), plaintext).ok()
}

/// Decrypts through `XChaCha20Poly1305::decrypt`, which refuses a
/// ciphertext shorter than the tag or whose tag does not authenticate it.
/// What the encryption under the same key and nonce produced decrypts to
/// its plaintext.
#[verifier::external_body]
fn aead_open(key: &[u8; 32], nonce: &[u8], ciphertext: &[u8]) -> (r: Option<Vec<u8>>)
    requires
        nonce@.len() == 24,
    ensures
        r matches Some(p) ==> xchacha20poly1305_open(key@, nonce@, ciphertext@) == Some(p@),
        r is None ==> xchacha20poly1305_open(key@, nonce@, ciphertext@) is None,
        ciphertext@.len() < 16 ==> r is None,
        forall|pt: Seq<u8>|
            aead_accepts_len(pt.len() as int) && ciphertext@ == #[trigger] xchacha20poly1305_seal(
                key@,
                nonce@,
                pt,
            ) ==> r is Some && r->0@ == pt,
{
    let cipher = chacha20poly1305::XChaCha20Poly1305::new(key.into());
    cipher.decrypt(chacha20poly1305::XNonce::from_slice(nonce), ciphertext).ok()
}

/// Why Argon2id refuses a password and salt of these lengths, in the words
/// of `argon2::Error`'s `Display`, or nothing when it takes them.
pub open spec fn argon2_refusal(password_len: int, salt_len: int) -> Option<Seq<char>> {
    if password_len > 0xFFFF_FFFF {
        Some("password is too long"@)
    } else if salt_len < 8 {
        Some("salt is too short"@)
    } else if salt_len > 0xFFFF_FFFF {
        Some("salt is too long"@)
    } else {
        None
    }
}

/// Derives a 32-byte key through `Argon2::default().hash_password_into`,
/// which checks the password length, then the salt length, and otherwise
/// fills the output; a refusal is carried as its `Display` text.
#[verifier::external_body]
fn argon2id_hash(password: &[u8], salt: &[u8]) -> (r: Result<[u8; 32], String>)
    ensures
        r is Ok <==> argon2_refusal(password@.len() as int, salt@.len() as int) is None,
        r matches Ok(k) ==> k@ == argon2id_default_key(password@, salt@),
        r matches Err(m) ==> argon2_refusal(password@.len() as int, salt@.len() as int) == Some(m@),
{
    let mut out = [0u8; 32];
    match argon2::Argon2::default().hash_password_into(password, salt, &mut out) {
        Ok(()) => Ok(out),
        Err(e) => Err(e.to_string()),
    }
}

/// Expands 32 bytes through `Hkdf::<Sha256>::new(None, secret).expand`,
/// which cannot fail for an output this short (at most 255 blocks).
#[verifier::external_body]
fn hkdf_expand(secret: &[u8; 32], info: &[u8]) -> (k: [u8; 32])
    ensures
        k@ == hkdf_sha256_key(secret@, info@),
{
    let mut okm = [0u8; 32];
    let hk = hkdf::Hkdf::<sha2::Sha256>::new(None, secret);
    match hk.expand(info, &mut okm) {
        Ok(()) => okm,
        Err(_) => okm,
    }
}

/// Hashes through `sha2::Sha256::digest`.
#[verifier::external_body]
pub(crate) fn sha256_of(data: &[u8]) -> (d: [u8; 32])
    ensures
        d@ == sha256_digest(data@),
{
    sha2::Sha256::digest(data).into()
}

/// A random Ed25519 secret key, from `SigningKey::generate(&mut OsRng)`.
///
/// The key is random: nothing is promised of it.
#[verifier::external_body]
fn ed25519_random_secret() -> (s: [u8; 32]) {
    ed25519_dalek::SigningKey::generate(&mut rand::rngs::OsRng).to_bytes()
}

/// The public key of a secret key, through
/// `SigningKey::from_bytes(secret).verifying_key().to_bytes()`.
#[verifier::external_body]
fn ed25519_public_of(secret: &[u8; 32]) -> (p: [u8; 32])
    ensures
        p@ == ed25519_public_key(secret@),
{
    ed25519_dalek::SigningKey::from_bytes(secret).verifying_key().to_bytes()
}

/// Signs through `Signer::try_sign` on `SigningKey::from_bytes(secret)`,
/// which always succeeds.
#[verifier::external_body]
fn ed25519_sign_with(secret: &[u8; 32], message: &[u8]) -> (s: [u8; 64])
    ensures
        s@ == ed25519_signature(secret@, message@),
{
    ed25519_dalek::SigningKey::from_bytes(secret).sign(message).to_bytes()
}

/// Decodes a public key through `VerifyingKey::from_bytes`, which refuses
/// bytes that are no compressed Edwards point; a refusal is carried as its
/// `Display` text. The public key of a secret key decodes.
#[verifier::external_body]
fn ed25519_decode_key(public: &[u8; 32]) -> (r: Result<(), String>)
    ensures
        r is Ok <==> ed25519_key_check(public@) is Ok,
        r matches Err(t) ==> ed25519_key_check(public@) is Err && ed25519_key_check(public@)->Err_0
            == t@,
        forall|secret: Seq<u8>| public@ == #[trigger] ed25519_public_key(secret) ==> r is Ok,
{
    match ed25519_dalek::VerifyingKey::from_bytes(public) {
        Ok(_) => Ok(()),
        Err(e) => Err(e.to_string()),
    }
}

/// Checks a signature through `Verifier::verify` on
/// `VerifyingKey::from_bytes(public)`. A signature that the secret key of
/// this public key made of this message is accepted.
#[verifier::external_body]
fn ed25519_check_signature(public: &[u8; 32], message: &[u8], signature: &[u8]) -> (ok: bool)
    requires
        ed25519_key_check(public@) is Ok,
        signature@.len() == 64,
    ensures
        ok == ed25519_accepts(public@, message@, signature@),
        forall|secret: Seq<u8>|
            public@ == #[trigger] ed25519_public_key(secret) && signature@ == ed25519_signature(
                secret,
                message@,
            ) ==> ok,
{
    match (ed25519_dalek::VerifyingKey::from_bytes(public), ed25519_dalek::Signature::from_slice(signature)) {
        (Ok(key), Ok(sig)) => key.verify(message, &sig).is_ok(),
        _ => false,
    }
}

/// A random X25519 static secret, from `StaticSecret::random_from_rng(OsRng)`.
///
/// The secret is random: nothing is promised of it.
#[verifier::external_body]
fn x25519_random_secret() -> (s: [u8; 32]) {
    x25519_dalek::StaticSecret::random_from_rng(rand::rngs::OsRng).to_bytes()
}

/// The public key of a static secret, through `PublicKey::from(&StaticSecret::from(secret))`.
#[verifier::external_body]
fn x25519_public_of(secret: &[u8; 32]) -> (p: [u8; 32])
    ensures
        p@ == x25519_public_key(secret@),
{
    let s = x25519_dalek::StaticSecret::from(*secret);
    x25519_dalek::PublicKey::from(&s).to_bytes()
}

/// Diffie–Hellman through `StaticSecret::diffie_hellman`. Both sides of an
/// exchange arrive at the same secret: ours with their public key is theirs
/// with our public key.
#[verifier::external_body]
fn x25519_agree(secret: &[u8; 32], their_public: &[u8; 32]) -> (shared: [u8; 32])
    ensures
        shared@ == x25519_shared_secret(secret@, their_public@),
        forall|other: Seq<u8>|
            their_public@ == #[trigger] x25519_public_key(other) ==> shared@ == x25519_shared_secret(
                other,
                x25519_public_key(secret@),
            ),
{
    let s = x25519_dalek::StaticSecret::from(*secret);
    let p = x25519_dalek::PublicKey::from(*their_public);
    *s.diffie_hellman(&p).as_bytes()
}

// ───────────────────────────── errors ─────────────────────────────

/// Errors produced by cryptographic operations.
#[derive(Debug, Clone)]
pub enum CryptoError {
    KeyGeneration(String),
    Signing(String),
    Verification(String),
    Encryption(String),
    Decryption(String),
    KeyDerivation(String),
    InvalidKey(String),
    InvalidNonce(String),
    InvalidSignature(String),
}

impl CryptoError {
    /// The error's text: a prefix that names the kind, then the detail.
    pub open spec fn describe(&self) -> Seq<char> {
        match self {
            CryptoError::KeyGeneration(m) => "key generation error: "@ + m@,
            CryptoError::Signing(m) => "signing error: "@ + m@,
            CryptoError::Verification(m) => "verification error: "@ + m@,
            CryptoError::Encryption(m) => "encryption error: "@ + m@,
            CryptoError::Decryption(m) => "decryption error: "@ + m@,
            CryptoError::KeyDerivation(m) => "key derivation error: "@ + m@,
            CryptoError::InvalidKey(m) => "invalid key: "@ + m@,
            CryptoError::InvalidNonce(m) => "invalid nonce: "@ + m@,
            CryptoError::InvalidSignature(m) => "invalid signature: "@ + m@,
        }
    }

    /// The error's text.
    pub fn message(&self) -> (s: String)
        ensures
            s@ == self.describe(),
    {
        match self {
            CryptoError::KeyGeneration(m) => String::from_str("key generation error: ").concat(m.as_str()),
            CryptoError::Signing(m) => String::from_str("signing error: ").concat(m.as_str()),
            CryptoError::Verification(m) => String::from_str("verification error: ").concat(m.as_str()),
            CryptoError::Encryption(m) => String::from_str("encryption error: ").concat(m.as_str()),
            CryptoError::Decryption(m) => String::from_str("decryption error: ").concat(m.as_str()),
            CryptoError::KeyDerivation(m) => String::from_str("key derivation error: ").concat(m.as_str()),
            CryptoError::InvalidKey(m) => String::from_str("invalid key: ").concat(m.as_str()),
            CryptoError::InvalidNonce(m) => String::from_str("invalid nonce: ").concat(m.as_str()),
            CryptoError::InvalidSignature(m) => String::from_str("invalid signature: ").concat(m.as_str()),
        }
    }
}

// ───────────────────────────── encryption ─────────────────────────────

/// The result of an encryption: the ciphertext (with its tag) and the
/// random nonce it was made with.
#[derive(Debug, Clone)]
pub struct EncryptedPayload {
    pub ciphertext: Vec<u8>,
    pub nonce: Vec<u8>,
}

/// A random 24-byte nonce for XChaCha20-Poly1305.
pub fn generate_nonce() -> (n: [u8; 24]) {
    os_random_24()
}

/// Encrypts `plaintext` under `key` with a fresh random nonce.
pub fn encrypt(plaintext: &[u8], key: &[u8; 32]) -> (r: Result<EncryptedPayload, CryptoError>)
    ensures
        r is Ok <==> aead_accepts_len(plaintext@.len() as int),
        r matches Ok(p) ==> {
            &&& p.nonce@.len() == 24
            &&& p.ciphertext@ == xchacha20poly1305_seal(key@, p.nonce@, plaintext@)
            &&& p.ciphertext@.len() == plaintext@.len() + 16
        },
        r matches Err(e) ==> e matches CryptoError::Encryption(m) && m@ == "aead::Error"@,
{
    let nonce = generate_nonce();
    let nonce_bytes = slice_to_vec(array_as_slice(&nonce));
    match aead_seal(key, nonce_bytes.as_slice(), plaintext) {
        Some(ciphertext) => Ok(EncryptedPayload { ciphertext, nonce: nonce_bytes }),
        None => Err(CryptoError::Encryption(String::from_str("aead::Error"))),
    }
}

/// Decrypts `payload` under `key`. What [`encrypt`] made under the same key
/// decrypts to its plaintext.
pub fn decrypt(payload: &EncryptedPayload, key: &[u8; 32]) -> (r: Result<Vec<u8>, CryptoError>)
    ensures
        payload.nonce@.len() != 24 ==> (r matches Err(CryptoError::InvalidNonce(m))
            && m@ == "nonce must be 24 bytes"@),
        payload.nonce@.len() == 24 ==> match xchacha20poly1305_open(
            key@,
            payload.nonce@,
            payload.ciphertext@,
        ) {
            Some(pt) => r matches Ok(p) && p@ == pt,
            None => r matches Err(CryptoError::Decryption(m)) && m@ == "aead::Error"@,
        },
        forall|pt: Seq<u8>|
            payload.nonce@.len() == 24 && aead_accepts_len(pt.len() as int) && payload.ciphertext@
                == #[trigger] xchacha20poly1305_seal(key@, payload.nonce@, pt) ==> (r matches Ok(p)
                && p@ == pt),
{
    if payload.nonce.len() != 24 {
        return Err(CryptoError::InvalidNonce(String::from_str("nonce must be 24 bytes")));
    }
    match aead_open(key, payload.nonce.as_slice(), payload.ciphertext.as_slice()) {
        Some(p) => Ok(p),
        None => Err(CryptoError::Decryption(String::from_str("aead::Error"))),
    }
}

// ───────────────────────────── key derivation ─────────────────────────────

/// Derives a 32-byte key from a PIN and a salt with Argon2id.
pub fn derive_key_from_pin(pin: &str, salt: &[u8]) -> (r: Result<[u8; 32], CryptoError>)
    ensures
        match argon2_refusal(pin.spec_bytes().len() as int, salt@.len() as int) {
            None => r matches Ok(k) && k@ == argon2id_default_key(pin.spec_bytes(), salt@),
            Some(t) => r matches Err(CryptoError::KeyDerivation(m)) && m@ == "argon2id failed: "@ + t,
        },
{
    match argon2id_hash(pin.as_bytes(), salt) {
        Ok(k) => Ok(k),
        Err(t) => Err(
            CryptoError::KeyDerivation(String::from_str("argon2id failed: ").concat(t.as_str())),
        ),
    }
}

/// Derives a 32-byte key from a shared secret with HKDF-SHA256, bound to
/// `context`.
pub fn derive_key_from_shared_secret(shared_secret: &[u8; 32], context: &[u8]) -> (r: Result<
    [u8; 32],
    CryptoError,
>)
    ensures
        r matches Ok(k) && k@ == hkdf_sha256_key(shared_secret@, context@),
{
    Ok(hkdf_expand(shared_secret, context))
}

/// A random 32-byte salt.
pub fn generate_salt() -> (s: [u8; 32]) {
    os_random_32()
}

/// The SHA-256 digest of `data`.
pub fn hash_sha256(data: &[u8]) -> (h: [u8; 32])
    ensures
        h@ == sha256_digest(data@),
{
    sha256_of(data)
}

/// A 32-byte array holding the bytes of a 32-byte slice.
fn array_of_32(bytes: &[u8]) -> (a: [u8; 32])
    requires
        bytes@.len() == 32,
    ensures
        a@ == bytes@,
{
    let mut a = [0u8; 32];
    let mut i: usize = 0;
    while i < 32
        invariant
            bytes@.len() == 32,
            i <= 32,
            a@.len() == 32,
            forall|k: int| 0 <= k < i ==> a@[k] == bytes@[k],
        decreases 32 - i,
    {
        a[i] = bytes[i];
        i = i + 1;
    }
    assert(a@ =~= bytes@);
    a
}

// ───────────────────────────── key pairs ─────────────────────────────

/// An Ed25519 signing key pair.
pub struct SigningKeyPair {
    secret: [u8; 32],
    public: [u8; 32],
}

impl SigningKeyPair {
    /// The public half is the public key of the secret half.
    #[verifier::type_invariant]
    spec fn halves_match(&self) -> bool {
        self.public@ == ed25519_public_key(self.secret@)
    }

    /// The 32-byte secret key.
    pub closed spec fn spec_secret(&self) -> Seq<u8> {
        self.secret@
    }

    /// A new random key pair.
    pub fn generate() -> (r: Result<Self, CryptoError>)
        ensures
            r is Ok,
    {
        let secret = ed25519_random_secret();
        let public = ed25519_public_of(&secret);
        Ok(SigningKeyPair { secret, public })
    }

    /// The key pair of 32 secret-key bytes.
    pub fn from_bytes(secret: &[u8]) -> (r: Result<Self, CryptoError>)
        ensures
            secret@.len() == 32 ==> (r matches Ok(k) && k.spec_secret() == secret@),
            secret@.len() != 32 ==> (r matches Err(CryptoError::InvalidKey(m)) && m@
                == "signing key must be 32 bytes"@),
    {
        if secret.len() != 32 {
            return Err(CryptoError::InvalidKey(String::from_str("signing key must be 32 bytes")));
        }
        let secret = array_of_32(secret);
        let public = ed25519_public_of(&secret);
        Ok(SigningKeyPair { secret, public })
    }

    /// The 32-byte public verifying key.
    pub fn public_key_bytes(&self) -> (p: [u8; 32])
        ensures
            p@ == ed25519_public_key(self.spec_secret()),
    {
        proof {
            use_type_invariant(self);
        }
        self.public
    }

    /// The 32-byte secret signing key.
    pub fn secret_key_bytes(&self) -> (s: [u8; 32])
        ensures
            s@ == self.spec_secret(),
    {
        self.secret
    }

    /// A description that shows the public key in hexadecimal and hides the
    /// secret key.
    pub fn debug_text(&self) -> (s: String)
        ensures
            s@ == "SigningKeyPair { public_key: \""@ + hex_text(ed25519_public_key(self.spec_secret()))
                + "\" }"@,
    {
        let p = self.public_key_bytes();
        String::from_str("SigningKeyPair { public_key: \"").concat(
            hex_encode(array_as_slice(&p)).as_str(),
        ).concat("\" }")
    }
}

/// An X25519 key pair for key agreement.
pub struct EncryptionKeyPair {
    secret: [u8; 32],
    public: [u8; 32],
}

impl EncryptionKeyPair {
    /// The public half is the public key of the secret half.
    #[verifier::type_invariant]
    spec fn halves_match(&self) -> bool {
        self.public@ == x25519_public_key(self.secret@)
    }

    /// The 32-byte static secret.
    pub closed spec fn spec_secret(&self) -> Seq<u8> {
        self.secret@
    }

    /// A new random key pair.
    pub fn generate() -> (r: Result<Self, CryptoError>)
        ensures
            r is Ok,
    {
        let secret = x25519_random_secret();
        let public = x25519_public_of(&secret);
        Ok(EncryptionKeyPair { secret, public })
    }

    /// The key pair of 32 secret-key bytes.
    pub fn from_bytes(secret_bytes: &[u8]) -> (r: Result<Self, CryptoError>)
        ensures
            secret_bytes@.len() == 32 ==> (r matches Ok(k) && k.spec_secret() == secret_bytes@),
            secret_bytes@.len() != 32 ==> (r matches Err(CryptoError::InvalidKey(m)) && m@
                == "encryption key must be 32 bytes"@),
    {
        if secret_bytes.len() != 32 {
            return Err(
                CryptoError::InvalidKey(String::from_str("encryption key must be 32 bytes")),
            );
        }
        let secret = array_of_32(secret_bytes);
        let public = x25519_public_of(&secret);
        Ok(EncryptionKeyPair { secret, public })
    }

    /// The 32-byte public key.
    pub fn public_key_bytes(&self) -> (p: [u8; 32])
        ensures
            p@ == x25519_public_key(self.spec_secret()),
    {
        proof {
            use_type_invariant(self);
        }
        self.public
    }

    /// The shared secret with the holder of `their_public`. Both sides
    /// arrive at the same secret.
    pub fn derive_shared_secret(&self, their_public: &[u8; 32]) -> (r: Result<[u8; 32], CryptoError>)
        ensures
            r matches Ok(s) && s@ == x25519_shared_secret(self.spec_secret(), their_public@),
            forall|other: Seq<u8>|
                their_public@ == #[trigger] x25519_public_key(other) ==> (r matches Ok(s) && s@
                    == x25519_shared_secret(other, x25519_public_key(self.spec_secret()))),
    {
        Ok(x25519_agree(&self.secret, their_public))
    }

    /// A description that shows the public key in hexadecimal and hides the
    /// secret.
    pub fn debug_text(&self) -> (s: String)
        ensures
            s@ == "EncryptionKeyPair { public_key: \""@ + hex_text(x25519_public_key(self.spec_secret()))
                + "\" }"@,
    {
        let p = self.public_key_bytes();
        String::from_str("EncryptionKeyPair { public_key: \"").concat(
            hex_encode(array_as_slice(&p)).as_str(),
        ).concat("\" }")
    }
}

/// A signing and an encryption key pair.
pub struct KeyBundle {
    pub signing: SigningKeyPair,
    pub encryption: EncryptionKeyPair,
}

impl KeyBundle {
    /// A bundle of fresh random key pairs.
    pub fn generate() -> (r: Result<Self, CryptoError>)
        ensures
            r is Ok,
    {
        let signing = match SigningKeyPair::generate() {
            Ok(k) => k,
            Err(e) => return Err(e),
        };
        let encryption = match EncryptionKeyPair::generate() {
            Ok(k) => k,
            Err(e) => return Err(e),
        };
        Ok(KeyBundle { signing, encryption })
    }
}

// ───────────────────────────── signatures ─────────────────────────────

/// The 64-byte Ed25519 signature of `message` under `signing_key`.
pub fn sign(message: &[u8], signing_key: &SigningKeyPair) -> (r: Result<Vec<u8>, CryptoError>)
    ensures
        r matches Ok(s) && s@ == ed25519_signature(signing_key.spec_secret(), message@),
        r matches Ok(s) && s@.len() == 64,
{
    let s = ed25519_sign_with(&signing_key.secret, message);
    Ok(slice_to_vec(array_as_slice(&s)))
}

/// Whether `signature` is a valid Ed25519 signature of `message` under
/// `public_key`. What [`sign`] made with the matching secret key is valid.
pub fn verify(message: &[u8], signature: &[u8], public_key: &[u8; 32]) -> (r: Result<bool, CryptoError>)
    ensures
        match ed25519_key_check(public_key@) {
            Err(t) => r matches Err(CryptoError::InvalidKey(m)) && m@ == t,
            Ok(()) => if signature@.len() != 64 {
                r matches Err(CryptoError::InvalidSignature(m)) && m@ == "signature must be 64 bytes"@
            } else {
                r == Ok::<bool, CryptoError>(ed25519_accepts(public_key@, message@, signature@))
            },
        },
        forall|secret: Seq<u8>|
            signature@.len() == 64 && public_key@ == #[trigger] ed25519_public_key(secret)
                && signature@ == ed25519_signature(secret, message@) ==> r == Ok::<bool, CryptoError>(
                true,
            ),
{
    match ed25519_decode_key(public_key) {
        Err(t) => Err(CryptoError::InvalidKey(t)),
        Ok(()) => {
            if signature.len() != 64 {
                return Err(CryptoError::InvalidSignature(String::from_str("signature must be 64 bytes")));
            }
            Ok(ed25519_check_signature(public_key, message, signature))
        },
    }
}

} // verus!

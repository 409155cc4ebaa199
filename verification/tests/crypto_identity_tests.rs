use gupt::crypto::{
    decrypt, derive_key_from_pin, derive_key_from_shared_secret, encrypt, generate_nonce,
    generate_salt, hash_sha256, sign, verify, CryptoError, EncryptedPayload, EncryptionKeyPair,
    KeyBundle, SigningKeyPair,
};
use gupt::identity::{IdentityError, IdentityManager, Session};
use gupt::common::{DeviceId, Timestamp, EARLIEST_INSTANT_NS};
use chacha20poly1305::aead::{Aead, KeyInit};

#[test]
fn decrypt_undoes_encrypt() {
    let key = [7u8; 32];
    let p = encrypt(b"hello mesh", &key).unwrap();
    assert_eq!(p.nonce.len(), 24);
    assert_eq!(p.ciphertext.len(), 10 + 16);
    assert_eq!(decrypt(&p, &key).unwrap(), b"hello mesh".to_vec());
    let empty = encrypt(b"", &key).unwrap();
    assert_eq!(decrypt(&empty, &key).unwrap(), Vec::<u8>::new());
}

#[test]
fn wrong_key_or_tampering_fails_to_decrypt() {
    let key = [7u8; 32];
    let mut p = encrypt(b"secret", &key).unwrap();
    assert!(matches!(decrypt(&p, &[8u8; 32]), Err(CryptoError::Decryption(_))));
    p.ciphertext[0] ^= 1;
    match decrypt(&p, &key) {
        Err(e) => assert_eq!(e.message(), "decryption error: aead::Error"),
        Ok(_) => panic!("tampered ciphertext decrypted"),
    }
}

#[test]
fn bad_nonce_is_refused() {
    let p = EncryptedPayload { ciphertext: vec![0; 32], nonce: vec![0; 12] };
    match decrypt(&p, &[0u8; 32]) {
        Err(CryptoError::InvalidNonce(m)) => assert_eq!(m, "nonce must be 24 bytes"),
        other => panic!("unexpected {:?}", other),
    }
}

#[test]
fn nonces_and_salts_are_fresh() {
    assert_ne!(generate_nonce(), generate_nonce());
    assert_ne!(generate_salt(), generate_salt());
}

#[test]
fn pin_key_is_deterministic_and_salt_sensitive() {
    let salt = [1u8; 16];
    let k1 = derive_key_from_pin("1234", &salt).unwrap();
    let k2 = derive_key_from_pin("1234", &salt).unwrap();
    let k3 = derive_key_from_pin("1235", &salt).unwrap();
    assert_eq!(k1, k2);
    assert_ne!(k1, k3);
    match derive_key_from_pin("1234", &[0u8; 4]) {
        Err(e) => assert_eq!(e.message(), "key derivation error: argon2id failed: salt is too short"),
        Ok(_) => panic!("short salt accepted"),
    }
}

#[test]
fn hkdf_and_sha256_known_values() {
    let k = derive_key_from_shared_secret(&[0u8; 32], b"ctx").unwrap();
    assert_eq!(k, derive_key_from_shared_secret(&[0u8; 32], b"ctx").unwrap());
    assert_ne!(k, derive_key_from_shared_secret(&[0u8; 32], b"other").unwrap());
    let h = hash_sha256(b"abc");
    assert_eq!(h[0], 0xba);
    assert_eq!(h[31], 0xad);
}

#[test]
fn signatures_verify_under_their_key_only() {
    let kp = SigningKeyPair::generate().unwrap();
    let sig = sign(b"msg", &kp).unwrap();
    assert_eq!(sig.len(), 64);
    assert_eq!(verify(b"msg", &sig, &kp.public_key_bytes()).unwrap(), true);
    assert_eq!(verify(b"other", &sig, &kp.public_key_bytes()).unwrap(), false);
    assert!(matches!(verify(b"msg", &sig[..63], &kp.public_key_bytes()), Err(CryptoError::InvalidSignature(_))));
    let restored = SigningKeyPair::from_bytes(&kp.secret_key_bytes()).unwrap();
    assert_eq!(restored.public_key_bytes(), kp.public_key_bytes());
    assert!(matches!(SigningKeyPair::from_bytes(&[1, 2, 3]), Err(CryptoError::InvalidKey(_))));
}

#[test]
fn ed25519_rfc8032_first_vector() {
    let secret = hex_bytes("9d61b19deffd5a60ba844af492ec2cc44449c5697b326919703bac031cae7f60");
    let kp = SigningKeyPair::from_bytes(&secret).unwrap();
    assert_eq!(kp.public_key_bytes().to_vec(), hex_bytes("d75a980182b10ab7d54bfed3c964073a0ee172f3daa62325af021a68f707511a"));
    let sig = sign(b"", &kp).unwrap();
    assert_eq!(sig, hex_bytes("e5564300c360ac729086e2cc806e828a84877f1eb8e5d974d873e065224901555fb8821590a33bacc61e39701cf9b46bd25bf5f0595bbe24655141438e7a100b"));
    assert!(kp.debug_text().starts_with("SigningKeyPair { public_key: \"d75a9801"));
}

#[test]
fn invalid_public_key_is_refused() {
    let mut bad = [0u8; 32];
    bad[0] = 2;
    bad[31] = 0x7f;
    let mut found_invalid = false;
    for b in 0u8..=255 {
        bad[1] = b;
        if let Err(CryptoError::InvalidKey(_)) = verify(b"m", &[0u8; 64], &bad) {
            found_invalid = true;
            break;
        }
    }
    assert!(found_invalid);
}

#[test]
fn key_agreement_is_symmetric() {
    let a = EncryptionKeyPair::generate().unwrap();
    let b = EncryptionKeyPair::generate().unwrap();
    let ab = a.derive_shared_secret(&b.public_key_bytes()).unwrap();
    let ba = b.derive_shared_secret(&a.public_key_bytes()).unwrap();
    assert_eq!(ab, ba);
    assert!(matches!(EncryptionKeyPair::from_bytes(&[0u8; 31]), Err(CryptoError::InvalidKey(_))));
    let bundle = KeyBundle::generate().unwrap();
    assert_eq!(bundle.encryption.public_key_bytes().len(), 32);
    assert!(bundle.encryption.debug_text().starts_with("EncryptionKeyPair { public_key: \""));
}

fn hex_bytes(s: &str) -> Vec<u8> {
    (0..s.len()).step_by(2).map(|i| u8::from_str_radix(&s[i..i + 2], 16).unwrap()).collect()
}

#[test]
fn test_full_identity_creation_flow() {
    let mut identity_manager = IdentityManager::default();
    let identity = identity_manager.create_identity("alice", "123456").unwrap();

    assert_eq!(identity.user_id.as_ref().starts_with("user_"), true);
    assert_eq!(identity.signing_public_key.len(), 32);

    assert!(identity_manager.is_unlocked());

    identity_manager.lock();
    assert!(!identity_manager.is_unlocked());
}

#[test]
fn created_identity_is_held_until_locked() {
    let mut m = IdentityManager::new();
    assert!(m.current_identity().is_none());
    let id = m.create_identity("bob", "0000").unwrap();
    assert!(id.device_id.as_ref().starts_with("device_"));
    assert_eq!(id.user_id.as_ref().len(), "user_".len() + 36);
    assert_eq!(&id.user_id.as_ref()[5 + 14..5 + 15], "4");
    assert!(matches!(&id.device_id.as_ref()[7 + 19..7 + 20], "8" | "9" | "a" | "b"));
    assert!(id.created_at.0 > 1_600_000_000 * 1_000_000_000);
    assert!(id.created_at.to_rfc3339().is_some());
    assert_eq!(m.current_identity().unwrap().user_id, id.user_id);
    assert_eq!(m.debug_text(), "IdentityManager { unlocked: true, has_identity: true }");
    m.lock();
    assert!(m.current_identity().is_none());
    assert_eq!(m.debug_text(), "IdentityManager { unlocked: false, has_identity: false }");
}

fn sealed_keys(pin: &str, salt: &[u8], plain: &[u8]) -> Vec<u8> {
    let key = derive_key_from_pin(pin, salt).unwrap();
    let cipher = chacha20poly1305::XChaCha20Poly1305::new((&key).into());
    cipher.encrypt(chacha20poly1305::XNonce::from_slice(&[0u8; 24]), plain).unwrap()
}

#[test]
fn unlock_with_the_right_pin_reads_the_keys() {
    let salt = [3u8; 16];
    let plain: Vec<u8> = (0..96u8).collect();
    let sealed = sealed_keys("4321", &salt, &plain);
    let mut m = IdentityManager::new();
    let id = m.unlock("4321", &sealed, &salt).unwrap();
    assert_eq!(id.signing_public_key, (32..64u8).collect::<Vec<u8>>());
    assert_eq!(id.encryption_public_key, (64..96u8).collect::<Vec<u8>>());
    assert_eq!(id.user_id.as_ref(), "unlocked_user");
    assert_eq!(id.device_id.as_ref(), "unlocked_device");
    assert!(id.created_at.0 > 1_600_000_000 * 1_000_000_000);
    assert!(id.created_at.to_rfc3339().is_some());
    assert!(m.is_unlocked());
}

#[test]
fn unlock_with_short_material_reuses_the_signing_key() {
    let salt = [3u8; 16];
    let plain: Vec<u8> = (0..70u8).collect();
    let sealed = sealed_keys("4321", &salt, &plain);
    let mut m = IdentityManager::new();
    let id = m.unlock("4321", &sealed, &salt).unwrap();
    assert_eq!(id.encryption_public_key, id.signing_public_key);
}

#[test]
fn unlock_refusals() {
    let salt = [3u8; 16];
    let plain: Vec<u8> = (0..96u8).collect();
    let sealed = sealed_keys("4321", &salt, &plain);
    let mut m = IdentityManager::new();
    assert!(matches!(m.unlock("9999", &sealed, &salt), Err(IdentityError::InvalidPin)));
    assert!(!m.is_unlocked());
    let short = sealed_keys("4321", &salt, &plain[..63]);
    assert!(matches!(m.unlock("4321", &short, &salt), Err(IdentityError::InvalidPin)));
    match m.unlock("4321", &sealed, &[0u8; 2]) {
        Err(e) => assert_eq!(e.message(), "key generation failed: key derivation error: argon2id failed: salt is too short"),
        Ok(_) => panic!("short salt accepted"),
    }
    assert_eq!(IdentityError::NotInitialized.message(), "identity not initialized");
}

fn session(expires: Timestamp) -> Session {
    Session { access_token: "a".into(), refresh_token: "r".into(), expires_at: expires, device_id: DeviceId::from_str("d") }
}

#[test]
fn session_expiry_and_refresh_window() {
    let s = session(ms(1_000_000));
    assert!(!s.is_expired_at(ms(999_999)));
    assert!(s.is_expired_at(ms(1_000_000)));
    assert!(!s.needs_refresh_at(ms(699_999)));
    assert!(!s.needs_refresh_at(Timestamp(699_999_999_999)));
    assert!(s.needs_refresh_at(ms(700_000)));
    assert!(session(Timestamp(0)).is_expired());
    assert!(!session(Timestamp(i128::MAX)).needs_refresh());
}

#[test]
fn refresh_window_kept_at_the_earliest_instant() {
    let five_minutes: i128 = 300_000_000_000;
    let s = session(Timestamp(EARLIEST_INSTANT_NS + 10));
    assert!(s.needs_refresh_at(Timestamp(EARLIEST_INSTANT_NS + 10)));
    assert!(!s.needs_refresh_at(Timestamp(EARLIEST_INSTANT_NS + 9)));
    let t = session(Timestamp(EARLIEST_INSTANT_NS + five_minutes));
    assert!(t.needs_refresh_at(Timestamp(EARLIEST_INSTANT_NS)));
    assert!(!t.needs_refresh_at(Timestamp(EARLIEST_INSTANT_NS - 1)));
}

/// The instant `x` milliseconds after the Unix epoch.
fn ms(x: i64) -> Timestamp {
    Timestamp(x as i128 * 1_000_000)
}

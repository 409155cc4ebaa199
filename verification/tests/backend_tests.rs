use gupt::backend::auth::{AuthConfig, AuthError, AuthService};
use gupt::backend::database::{config_from_values, parse_u32, DatabaseConfig, DatabaseError};
use gupt::backend::middleware::{authenticated_user, bearer_token, MiddlewareError};
use gupt::backend::models::RelayMessageRequest;
use gupt::backend::relay::{RelayConfig, RelayError, RelayService};
use gupt::backend::repositories::{single_row_outcome, RepositoryError};
use gupt::common::Timestamp;

#[test]
fn default_auth_config() {
    let c = AuthConfig::default();
    assert_eq!(c.jwt_secret, "");
    assert_eq!(c.access_token_ttl_seconds, 3600);
    assert_eq!(c.refresh_token_ttl_seconds, 2_592_000);
}

#[test]
fn access_claims_name_user_and_expiry() {
    let s = AuthService::new(AuthConfig::default());
    let c = s.access_claims(0x67e5_5044_10b1_426f_9247_bb68_0e5f_e0c8, "dev-1", 1_700_000_000, 1);
    assert_eq!(c.sub, "67e55044-10b1-426f-9247-bb680e5fe0c8");
    assert_eq!(c.device_id, "dev-1");
    assert_eq!(c.iat, 1_700_000_000);
    assert_eq!(c.exp, 1_700_003_600);
    assert_eq!(c.jti, "00000000-0000-0000-0000-000000000001");
    let u = authenticated_user(&c).unwrap();
    assert_eq!(u.user_id, 0x67e5_5044_10b1_426f_9247_bb68_0e5f_e0c8);
    assert_eq!(u.device_id, "dev-1");
}

#[test]
fn refresh_tokens_and_challenges_are_hex() {
    let s = AuthService::new(AuthConfig::default());
    let t = s.generate_refresh_token();
    assert_eq!(t.len(), 128);
    assert!(t.chars().all(|c| c.is_ascii_hexdigit() && !c.is_ascii_uppercase()));
    assert_ne!(t, s.generate_refresh_token());
    assert_eq!(s.generate_challenge(7).len(), 64);
    assert_eq!(s.hash_refresh_token("abc"), "ba7816bf8f01cfea414140de5dae2223b00361a396177a9cb410ff61f20015ad");
}

#[test]
fn token_failures_are_classified() {
    assert!(matches!(AuthError::from_token_failure(true, "ExpiredSignature".into()), AuthError::TokenExpired));
    let e = AuthError::from_token_failure(false, "InvalidSignature".into());
    assert_eq!(e.message(), "token invalid: InvalidSignature");
    assert_eq!(AuthError::from_encoding_failure("bad key").message(), "internal error: JWT encoding failed: bad key");
    assert_eq!(AuthError::UserAlreadyExists.message(), "user already exists");
}

#[test]
fn bearer_header_parsing() {
    assert_eq!(bearer_token("Bearer abc.def"), Some("abc.def"));
    assert_eq!(bearer_token("Bearer "), Some(""));
    assert_eq!(bearer_token("bearer abc"), None);
    assert_eq!(bearer_token("Basic abc"), None);
    assert_eq!(bearer_token("Bear"), None);
    assert_eq!(MiddlewareError::MissingAuth.message(), "missing or invalid authorization header");
}

#[test]
fn claims_with_a_bad_subject_name_nobody() {
    let s = AuthService::new(AuthConfig::default());
    let mut c = s.access_claims(1, "d", 0, 2);
    c.sub = "not-a-uuid".into();
    assert!(authenticated_user(&c).is_none());
}

fn request(payload: &str, signature: &str, ttl: Option<i32>) -> RelayMessageRequest {
    RelayMessageRequest { recipient_id: 42, encrypted_payload: payload.into(), packet_signature: signature.into(), ttl }
}

#[test]
fn relay_accepts_valid_requests() {
    let r = RelayService::new(RelayConfig::default());
    let m = r.prepare_message(7, &request("aGVsbG8=", "c2ln", None), 99, ms(5)).unwrap();
    assert_eq!(m.id, 99);
    assert_eq!(m.sender_id, 7);
    assert_eq!(m.recipient_id, 42);
    assert_eq!(m.encrypted_payload, b"hello".to_vec());
    assert_eq!(m.packet_signature, b"sig".to_vec());
    assert_eq!(m.ttl, 86_400);
    assert_eq!(m.status, "pending");
    assert_eq!(m.created_at, ms(5));
    let m2 = r.prepare_message(7, &request("", "", Some(60)), 1, ms(0)).unwrap();
    assert_eq!(m2.ttl, 60);
    assert!(m2.encrypted_payload.is_empty());
}

#[test]
fn relay_refusals() {
    let r = RelayService::new(RelayConfig { max_payload_size: 4, max_queue_per_user: 1, default_ttl_seconds: 1 });
    match r.prepare_message(1, &request("aGVsbG8=", "c2ln", None), 2, ms(0)) {
        Err(e @ RelayError::PayloadTooLarge { size: 5, max: 4 }) => assert_eq!(e.message(), "payload too large: 5 bytes (max 4)"),
        other => panic!("unexpected {:?}", other),
    }
    match r.prepare_message(1, &request("!!!", "c2ln", None), 2, ms(0)) {
        Err(RelayError::StoreFailed(m)) => assert!(m.starts_with("invalid base64 payload: ")),
        other => panic!("unexpected {:?}", other),
    }
    match r.prepare_message(1, &request("aGk=", "%%", None), 2, ms(0)) {
        Err(RelayError::StoreFailed(m)) => assert!(m.starts_with("invalid base64 signature: ")),
        other => panic!("unexpected {:?}", other),
    }
    assert_eq!(RelayService::delivery_failure("gone").message(), "delivery failed: gone");
    assert_eq!(RelayService::store_failure("db").message(), "store failed: db");
    assert_eq!(RelayError::QueueFull.message(), "queue full");
    let d = RelayConfig::default();
    assert_eq!(d.max_payload_size, 262_144);
    assert_eq!(d.max_queue_per_user, 1000);
}

#[test]
fn u32_parsing_matches_std() {
    for s in ["0", "5", "+7", "4294967295", "4294967296", "", "+", "-1", "12a", " 1", "0042", "99999999999999999999"] {
        assert_eq!(parse_u32(s), s.parse::<u32>().ok(), "input {:?}", s);
    }
}

#[test]
fn database_config_from_environment_values() {
    let c = config_from_values(Some("postgres://x".into()), Some("12")).unwrap();
    assert_eq!(c.database_url, "postgres://x");
    assert_eq!(c.max_connections, 12);
    assert_eq!(config_from_values(Some("u".into()), Some("many")).unwrap().max_connections, 5);
    assert_eq!(config_from_values(Some("u".into()), None).unwrap().max_connections, 5);
    match config_from_values(None, Some("3")) {
        Err(e @ DatabaseError::ConnectionFailed(_)) => assert_eq!(e.message(), "connection failed: DATABASE_URL is not set"),
        other => panic!("unexpected {:?}", other),
    }
    assert_eq!(DatabaseConfig::default().max_connections, 5);
}

#[test]
fn repository_outcomes() {
    assert!(matches!(single_row_outcome(0), Err(RepositoryError::NotFound)));
    assert!(single_row_outcome(3).is_ok());
    assert_eq!(RepositoryError::for_user_creation("ann", true, "x").message(), "duplicate: username 'ann' already exists");
    assert_eq!(RepositoryError::for_user_creation("ann", false, "timeout").message(), "query failed: timeout");
    assert_eq!(RepositoryError::query_failed("boom").message(), "query failed: boom");
}

/// The instant `x` milliseconds after the Unix epoch.
fn ms(x: i64) -> Timestamp {
    Timestamp(x as i128 * 1_000_000)
}

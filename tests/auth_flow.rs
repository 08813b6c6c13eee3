use actions::{
    authorize_step, complete_login, complete_refresh, refresh_source, route_request, step_for,
    ActionMutation, AuthError, AuthorizedParams, Claims, Decoded, Mutation, SessionRecord,
    SessionService, Step, TokenFields, UpstreamTokenSet, TOKEN_LIFETIME,
};

const SECRET: &str = "jwt-test-secret";
const NOW: i64 = 1_700_000_000;

fn record(user_id: i32, access: &str, refresh: &str, expires_at: i64) -> SessionRecord {
    SessionRecord {
        id: 0,
        user_id,
        access_token: access.to_string(),
        refresh_token: refresh.to_string(),
        expires_at,
    }
}

fn tokens(access: &str, refresh: Option<&str>, expires_in: Option<u64>) -> UpstreamTokenSet {
    UpstreamTokenSet {
        access_token: access.to_string(),
        refresh_token: refresh.map(|s| s.to_string()),
        expires_in,
    }
}

fn signed(exp: i64, access: &str, user_id: i32) -> String {
    let c = Claims { exp, access_token: access.to_string(), user_id };
    c.encode(SECRET).expect("signing with an HMAC key succeeds")
}

#[test]
fn valid_token_round_trips() {
    let token = signed(NOW + 100, "AT1", 42);
    match Claims::decode_at(&token, SECRET, NOW) {
        Decoded::Valid(c) => {
            assert_eq!(c.exp, NOW + 100);
            assert_eq!(c.access_token, "AT1");
            assert_eq!(c.user_id, 42);
        }
        other => panic!("expected a valid token, got {:?}", other),
    }
}

#[test]
fn token_valid_at_its_expiry_second() {
    let token = signed(NOW, "AT1", 42);
    assert!(matches!(Claims::decode_at(&token, SECRET, NOW), Decoded::Valid(_)));
}

#[test]
fn issued_token_decodes_now() {
    let claims = Claims::new("AT1".to_string(), 42);
    let token = claims.encode(SECRET).unwrap();
    match Claims::decode(&token, SECRET) {
        Decoded::Valid(c) => {
            assert_eq!(c.user_id, 42);
            assert_eq!(c.access_token, "AT1");
            assert_eq!(c.exp, claims.exp);
        }
        other => panic!("expected a valid token, got {:?}", other),
    }
}

#[test]
fn issued_at_adds_seven_hours() {
    let c = Claims::issued_at("AT1".to_string(), 42, NOW);
    assert_eq!(TOKEN_LIFETIME, 25200);
    assert_eq!(c.exp, NOW + 25200);
    assert_eq!(c.access_token, "AT1");
    assert_eq!(c.user_id, 42);
}

#[test]
fn issued_at_holds_at_largest_timestamp() {
    let c = Claims::issued_at("AT1".to_string(), 7, i64::MAX - 10);
    assert_eq!(c.exp, i64::MAX);
}

#[test]
fn expired_token_keeps_user() {
    let token = signed(NOW - 1, "AT1", 42);
    match Claims::decode_at(&token, SECRET, NOW) {
        Decoded::Expired(c) => {
            assert_eq!(c.user_id, 42);
            assert_eq!(c.access_token, "AT1");
        }
        other => panic!("expected an expired token, got {:?}", other),
    }
}

#[test]
fn token_with_other_secret_is_invalid() {
    let token = signed(NOW + 100, "AT1", 42);
    assert!(matches!(Claims::decode_at(&token, "another-secret", NOW), Decoded::Invalid));
}

#[test]
fn malformed_token_is_invalid() {
    assert!(matches!(Claims::decode_at("not.a.token", SECRET, NOW), Decoded::Invalid));
    assert!(matches!(Claims::decode_at("", SECRET, NOW), Decoded::Invalid));
}

#[test]
fn tampered_signature_is_rejected() {
    let token = signed(NOW + 100, "AT1", 42);
    let mut bytes = token.into_bytes();
    let at = bytes.len() - 5;
    bytes[at] = if bytes[at] == b'A' { b'B' } else { b'A' };
    let tampered = String::from_utf8(bytes).unwrap();
    assert!(matches!(Claims::decode_at(&tampered, SECRET, NOW), Decoded::Invalid));
    match route_request(Some(&tampered), SECRET, NOW) {
        Step::Reject(e) => assert_eq!(e, AuthError::TokenInvalid),
        other => panic!("expected a rejection, got {:?}", other),
    }
}

#[test]
fn classify_complete_fields() {
    let f = TokenFields { exp: Some(10), access_token: Some("AT".to_string()), user_id: Some(5) };
    assert!(matches!(Claims::classify(Some(f.clone()), 10), Decoded::Valid(_)));
    assert!(matches!(Claims::classify(Some(f), 11), Decoded::Expired(_)));
}

#[test]
fn classify_rejects_incomplete_or_out_of_range() {
    let missing = TokenFields { exp: None, access_token: Some("AT".to_string()), user_id: Some(5) };
    assert!(matches!(Claims::classify(Some(missing), 0), Decoded::Invalid));
    let big = TokenFields {
        exp: Some(10),
        access_token: Some("AT".to_string()),
        user_id: Some(i32::MAX as i64 + 1),
    };
    assert!(matches!(Claims::classify(Some(big), 0), Decoded::Invalid));
    assert!(matches!(Claims::classify(None, 0), Decoded::Invalid));
}

#[test]
fn upsert_twice_keeps_one_record() {
    let mut store = SessionService::new();
    let first = store.create_or_update_session(record(42, "AT1", "RT1", 100)).unwrap();
    let second = store.create_or_update_session(record(42, "AT2", "RT2", 200)).unwrap();
    assert_eq!(first.id, second.id);
    let found = store.find_session_by_user_id(42).unwrap();
    assert_eq!(found.id, first.id);
    assert_eq!(found.access_token, "AT2");
    assert_eq!(found.refresh_token, "RT2");
    assert_eq!(found.expires_at, 200);
}

#[test]
fn create_session_assigns_distinct_ids() {
    let mut store = SessionService::new();
    let a = store.create_session(record(1, "a", "ra", 1)).unwrap();
    let b = store.create_session(record(2, "b", "rb", 2)).unwrap();
    assert_ne!(a.id, b.id);
    assert_eq!(store.find_session_by_user_id(2).unwrap().access_token, "b");
}

#[test]
fn create_session_refuses_second_record() {
    let mut store = SessionService::new();
    store.create_session(record(1, "a", "ra", 1)).unwrap();
    let err = store.create_session(record(1, "b", "rb", 2)).unwrap_err();
    assert_eq!(err, AuthError::StorageFailure);
    assert_eq!(store.find_session_by_user_id(1).unwrap().access_token, "a");
}

#[test]
fn update_session_needs_a_record() {
    let mut store = SessionService::new();
    let err = store.update_session(record(3, "a", "ra", 1)).unwrap_err();
    assert_eq!(err, AuthError::SessionNotFound);
    assert!(store.find_session_by_user_id(3).is_none());
}

#[test]
fn csrf_mismatch_is_refused() {
    let params = AuthorizedParams { code: "abc".to_string(), state: "s1".to_string() };
    assert_eq!(authorize_step(&params, Some("s2")), Err(AuthError::CsrfMismatch));
    assert_eq!(authorize_step(&params, None), Err(AuthError::CsrfMismatch));
    assert_eq!(authorize_step(&params, Some("s1")), Ok("abc".to_string()));
}

#[test]
fn fresh_login() {
    let params = AuthorizedParams { code: "abc".to_string(), state: "csrf".to_string() };
    let code = authorize_step(&params, Some("csrf")).unwrap();
    assert_eq!(code, "abc");
    let mut store = SessionService::new();
    let issued =
        complete_login(&mut store, 42, tokens("AT1", Some("RT1"), Some(3600)), NOW, SECRET)
            .unwrap();
    let s = store.find_session_by_user_id(42).unwrap();
    assert_eq!(s.access_token, "AT1");
    assert_eq!(s.refresh_token, "RT1");
    assert_eq!(s.expires_at, NOW + 3600);
    assert_eq!(issued.session.user_id, 42);
    match Claims::decode_at(&issued.token, SECRET, NOW) {
        Decoded::Valid(c) => {
            assert_eq!(c.user_id, 42);
            assert_eq!(c.access_token, "AT1");
        }
        other => panic!("expected a valid token, got {:?}", other),
    }
}

#[test]
fn login_without_refresh_token_fails() {
    let mut store = SessionService::new();
    let err = complete_login(&mut store, 42, tokens("AT1", None, Some(3600)), NOW, SECRET)
        .unwrap_err();
    assert_eq!(err, AuthError::UpstreamExchangeFailure);
    assert!(store.find_session_by_user_id(42).is_none());
}

#[test]
fn expired_token_refresh() {
    let mut store = SessionService::new();
    store.create_or_update_session(record(42, "AT1", "RT1", NOW - 10)).unwrap();
    let token = signed(NOW - 1, "AT1", 42);
    let user_id = match route_request(Some(&token), SECRET, NOW) {
        Step::Refresh(u) => u,
        other => panic!("expected a refresh, got {:?}", other),
    };
    assert_eq!(user_id, 42);
    assert_eq!(refresh_source(&store, user_id), Ok("RT1".to_string()));
    let issued = complete_refresh(
        &mut store,
        user_id,
        Some(tokens("AT2", Some("RT2"), Some(3600))),
        NOW,
        SECRET,
    )
    .unwrap();
    match Claims::decode_at(&issued.token, SECRET, NOW) {
        Decoded::Valid(c) => {
            assert_eq!(c.user_id, 42);
            assert_eq!(c.access_token, "AT2");
        }
        other => panic!("expected a valid token, got {:?}", other),
    }
    let s = store.find_session_by_user_id(42).unwrap();
    assert_eq!(s.refresh_token, "RT2");
    assert_eq!(s.access_token, "AT2");
}

#[test]
fn refresh_keeps_previous_refresh_token() {
    let mut store = SessionService::new();
    store.create_or_update_session(record(42, "AT1", "RT1", NOW)).unwrap();
    complete_refresh(&mut store, 42, Some(tokens("AT2", None, Some(60))), NOW, SECRET).unwrap();
    let s = store.find_session_by_user_id(42).unwrap();
    assert_eq!(s.refresh_token, "RT1");
    assert_eq!(s.access_token, "AT2");
    assert_eq!(s.expires_at, NOW + 60);
}

#[test]
fn refresh_without_session() {
    let mut store = SessionService::new();
    store.create_or_update_session(record(42, "AT1", "RT1", NOW)).unwrap();
    let token = signed(NOW - 1, "AT1", 99);
    let user_id = match route_request(Some(&token), SECRET, NOW) {
        Step::Refresh(u) => u,
        other => panic!("expected a refresh, got {:?}", other),
    };
    assert_eq!(refresh_source(&store, user_id), Err(AuthError::SessionNotFound));
    let err = complete_refresh(
        &mut store,
        user_id,
        Some(tokens("AT2", Some("RT2"), Some(3600))),
        NOW,
        SECRET,
    )
    .unwrap_err();
    assert_eq!(err, AuthError::SessionNotFound);
    assert!(store.find_session_by_user_id(99).is_none());
}

#[test]
fn failed_upstream_refresh_changes_nothing() {
    let mut store = SessionService::new();
    store.create_or_update_session(record(42, "AT1", "RT1", NOW)).unwrap();
    let err = complete_refresh(&mut store, 42, None, NOW, SECRET).unwrap_err();
    assert_eq!(err, AuthError::UpstreamExchangeFailure);
    let err = complete_refresh(&mut store, 42, Some(tokens("AT2", None, None)), NOW, SECRET)
        .unwrap_err();
    assert_eq!(err, AuthError::UpstreamExchangeFailure);
    let s = store.find_session_by_user_id(42).unwrap();
    assert_eq!(s.access_token, "AT1");
}

#[test]
fn route_without_token_passes_through() {
    assert!(matches!(route_request(None, SECRET, NOW), Step::PassThrough));
}

#[test]
fn route_valid_token_proceeds() {
    let token = signed(NOW + 5, "AT1", 42);
    match route_request(Some(&token), SECRET, NOW) {
        Step::Proceed(c) => assert_eq!(c.user_id, 42),
        other => panic!("expected to proceed, got {:?}", other),
    }
}

#[test]
fn step_for_each_outcome() {
    assert!(matches!(step_for(None), Step::PassThrough));
    assert!(matches!(step_for(Some(Decoded::Invalid)), Step::Reject(AuthError::TokenInvalid)));
    let c = Claims { exp: 1, access_token: "a".to_string(), user_id: 9 };
    assert!(matches!(step_for(Some(Decoded::Expired(c))), Step::Refresh(9)));
}

#[test]
fn error_status_codes() {
    assert_eq!(AuthError::CsrfMismatch.status_code(), 400);
    assert_eq!(AuthError::TokenInvalid.status_code(), 403);
    assert_eq!(AuthError::SessionNotFound.status_code(), 403);
    assert_eq!(AuthError::UpstreamExchangeFailure.status_code(), 502);
    assert_eq!(AuthError::StorageFailure.status_code(), 500);
    assert_eq!(AuthError::TokenEncoding.status_code(), 500);
}

#[test]
fn create_action_names_it() {
    let m = Mutation(ActionMutation);
    assert_eq!(m.0.create_action(), "create");
}

#[test]
fn token_before_the_epoch_round_trips() {
    let token = signed(-5, "AT0", -3);
    match Claims::decode_at(&token, SECRET, 0) {
        Decoded::Expired(c) => {
            assert_eq!(c.exp, -5);
            assert_eq!(c.user_id, -3);
            assert_eq!(c.access_token, "AT0");
        }
        other => panic!("expected an expired token, got {:?}", other),
    }
}

#[test]
fn access_token_with_quotes_round_trips() {
    let token = signed(NOW + 1, "a\"b\\c\u{1}é", 1);
    match Claims::decode_at(&token, SECRET, NOW) {
        Decoded::Valid(c) => assert_eq!(c.access_token, "a\"b\\c\u{1}é"),
        other => panic!("expected a valid token, got {:?}", other),
    }
}

#[test]
fn upstream_expiry_overflow_fails() {
    let mut store = SessionService::new();
    let err = complete_login(&mut store, 5, tokens("AT", Some("RT"), Some(u64::MAX)), NOW, SECRET)
        .unwrap_err();
    assert_eq!(err, AuthError::UpstreamExchangeFailure);
    assert!(store.find_session_by_user_id(5).is_none());
}

#[test]
fn equal_claims_encode_alike() {
    let a = Claims { exp: NOW, access_token: "AT1".to_string(), user_id: 42 };
    let b = Claims { exp: NOW, access_token: "AT1".to_string(), user_id: 42 };
    assert_eq!(a.encode(SECRET).unwrap(), b.encode(SECRET).unwrap());
    let c = Claims { exp: NOW, access_token: "AT1".to_string(), user_id: 43 };
    assert_ne!(a.encode(SECRET).unwrap(), c.encode(SECRET).unwrap());
}

#[test]
fn tampered_expired_token_is_invalid_now() {
    let token = signed(NOW - 100, "AT1", 42);
    let mut chars: Vec<char> = token.chars().collect();
    let at = chars.len() - 3;
    chars[at] = if chars[at] == 'x' { 'y' } else { 'x' };
    let tampered: String = chars.into_iter().collect();
    assert!(matches!(Claims::decode(&tampered, SECRET), Decoded::Invalid));
    assert!(matches!(Claims::decode_at(&tampered, SECRET, NOW), Decoded::Invalid));
}

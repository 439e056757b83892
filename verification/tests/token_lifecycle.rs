use std::cell::Cell;

use blog_platform::client::error::ClientError;
use blog_platform::client::interceptor::{
    claims_from_members, decode_token_without_validation, user_id_from_token, Claims,
};
use blog_platform::client::token_manager::{
    check_freshness, refresh_token_to_send, Freshness, TokenManager, TokenUpdateEvent,
};
use blog_platform::client::types::AuthData;

fn token_with(sub: &str, user_name: &str, exp: i64) -> String {
    let mut claims = serde_json::Map::new();
    claims.insert("sub".to_string(), serde_json::Value::from(sub));
    claims.insert("user_name".to_string(), serde_json::Value::from(user_name));
    claims.insert("exp".to_string(), serde_json::Value::from(exp));
    jsonwebtoken::encode(
        &jsonwebtoken::Header::default(),
        &claims,
        &jsonwebtoken::EncodingKey::from_secret(b"test-secret"),
    )
    .unwrap()
}

fn token_expiring_in(seconds: i64) -> String {
    token_with("user_id", "test_user", chrono::Utc::now().timestamp() + seconds)
}

fn pair(access_token: &str, refresh_token: &str) -> AuthData {
    AuthData { access_token: access_token.to_string(), refresh_token: refresh_token.to_string() }
}

#[test]
fn test_expires_soon() {
    let claims = Claims {
        sub: "user_id".to_string(),
        user_name: "test_user".to_string(),
        exp: chrono::Utc::now().timestamp() + 30,
    };
    assert!(claims.expires_soon(60));
    assert!(!claims.expires_soon(10));
}

#[test]
fn test_token_manager_set_get() {
    let mut manager = TokenManager::new(300);

    let auth_data = AuthData {
        access_token: "test_access".to_string(),
        refresh_token: "test_refresh".to_string(),
    };

    manager.set_auth_data(auth_data.clone());

    let token = manager.get_access_token();
    assert_eq!(token, Some("test_access".to_string()));

    let refresh = manager.get_refresh_token();
    assert_eq!(refresh, Some("test_refresh".to_string()));
}

#[test]
fn expiry_boundary_is_inclusive() {
    let claims = Claims { sub: "s".to_string(), user_name: "u".to_string(), exp: 1_000_300 };
    assert!(claims.expires_soon_at(1_000_000, 300));
    assert!(claims.expires_soon_at(1_000_001, 300));
    assert!(!claims.expires_soon_at(999_999, 300));
    assert!(!claims.expires_soon_at(1_000_000, 299));
    assert!(claims.expires_soon_at(1_000_000, 301));
}

#[test]
fn expiry_check_does_not_overflow() {
    let late = Claims { sub: "s".to_string(), user_name: "u".to_string(), exp: i64::MAX };
    assert!(late.expires_soon_at(i64::MAX, 0));
    assert!(late.expires_soon_at(i64::MAX, i64::MAX));
    assert!(!late.expires_soon_at(i64::MAX, -1));
    assert!(!late.expires_soon_at(i64::MIN, i64::MIN));
    let early = Claims { sub: "s".to_string(), user_name: "u".to_string(), exp: i64::MIN };
    assert!(!early.expires_soon_at(i64::MIN, i64::MIN));
    assert!(early.expires_soon_at(i64::MIN, 0));
    assert!(early.expires_soon_at(0, 0));
}

#[test]
fn decode_reads_the_claims() {
    let token = token_with("7f1c9a54-0000-4000-8000-000000000001", "alice", 1_900_000_000);
    let claims = decode_token_without_validation(&token).unwrap();
    assert_eq!(
        claims,
        Claims {
            sub: "7f1c9a54-0000-4000-8000-000000000001".to_string(),
            user_name: "alice".to_string(),
            exp: 1_900_000_000,
        }
    );
}

#[test]
fn decode_ignores_signature_and_expiry() {
    let token = token_with("user_id", "test_user", 1);
    let mut forged = token[..token.rfind('.').unwrap()].to_string();
    forged.push_str(".AAAA");
    let claims = decode_token_without_validation(&forged).unwrap();
    assert_eq!(claims.exp, 1);
    assert_eq!(claims.user_name, "test_user");
}

#[test]
fn decode_rejects_a_token_without_three_parts() {
    match decode_token_without_validation("test_access") {
        Err(ClientError::DecodeError(message)) => {
            assert!(message.starts_with("Failed to decode token: "));
            assert!(message.len() > "Failed to decode token: ".len());
        }
        other => panic!("unexpected result: {:?}", other),
    }
    assert!(matches!(
        decode_token_without_validation("a.b"),
        Err(ClientError::DecodeError(_))
    ));
    assert!(matches!(
        decode_token_without_validation(""),
        Err(ClientError::DecodeError(_))
    ));
}

#[test]
fn decode_error_is_a_kind_of_its_own() {
    let error = decode_token_without_validation("test_access").unwrap_err();
    assert!(matches!(error, ClientError::DecodeError(_)));
    assert!(!matches!(error, ClientError::InternalError(_)));
    assert!(!matches!(error, ClientError::TransportError(_)));
}

#[test]
fn decode_names_the_missing_claim() {
    let mut claims = serde_json::Map::new();
    claims.insert("sub".to_string(), serde_json::Value::from("user_id"));
    claims.insert("exp".to_string(), serde_json::Value::from(5));
    let token = jsonwebtoken::encode(
        &jsonwebtoken::Header::default(),
        &claims,
        &jsonwebtoken::EncodingKey::from_secret(b"k"),
    )
    .unwrap();
    assert_eq!(
        decode_token_without_validation(&token),
        Err(ClientError::DecodeError(
            "Failed to decode token: missing or invalid field `user_name`".to_string()
        ))
    );
}

#[test]
fn decode_rejects_an_expiry_that_is_no_integer() {
    let mut claims = serde_json::Map::new();
    claims.insert("sub".to_string(), serde_json::Value::from("user_id"));
    claims.insert("user_name".to_string(), serde_json::Value::from("test_user"));
    claims.insert("exp".to_string(), serde_json::Value::from("soon"));
    let token = jsonwebtoken::encode(
        &jsonwebtoken::Header::default(),
        &claims,
        &jsonwebtoken::EncodingKey::from_secret(b"k"),
    )
    .unwrap();
    assert_eq!(
        decode_token_without_validation(&token),
        Err(ClientError::DecodeError(
            "Failed to decode token: missing or invalid field `exp`".to_string()
        ))
    );
}

#[test]
fn claims_need_all_three_members() {
    assert_eq!(
        claims_from_members(Some("s".to_string()), Some("u".to_string()), Some(9)),
        Ok(Claims { sub: "s".to_string(), user_name: "u".to_string(), exp: 9 })
    );
    assert_eq!(
        claims_from_members(None, None, None),
        Err(ClientError::DecodeError(
            "Failed to decode token: missing or invalid field `sub`".to_string()
        ))
    );
    assert_eq!(
        claims_from_members(Some("s".to_string()), None, None),
        Err(ClientError::DecodeError(
            "Failed to decode token: missing or invalid field `user_name`".to_string()
        ))
    );
    assert_eq!(
        claims_from_members(Some("s".to_string()), Some("u".to_string()), None),
        Err(ClientError::DecodeError(
            "Failed to decode token: missing or invalid field `exp`".to_string()
        ))
    );
}

#[test]
fn user_id_is_read_from_the_subject() {
    let token = token_with("00000000-0000-0000-0000-00000000002a", "alice", 1_900_000_000);
    assert_eq!(user_id_from_token(&token), 42);
    assert_eq!(user_id_from_token(&token_with("not an id", "alice", 1)), 0);
    assert_eq!(user_id_from_token("garbage"), 0);
}

#[test]
fn set_then_get_returns_the_pair() {
    let mut manager = TokenManager::new(300);
    assert_eq!(manager.get_auth_data(), None);
    assert_eq!(manager.get_access_token(), None);
    assert_eq!(manager.get_refresh_token(), None);
    manager.set_auth_data(pair("a1", "r1"));
    assert_eq!(manager.get_auth_data(), Some(pair("a1", "r1")));
    manager.set_auth_data(pair("a2", "r2"));
    assert_eq!(manager.get_auth_data(), Some(pair("a2", "r2")));
    assert_eq!(manager.get_access_token(), Some("a2".to_string()));
    assert_eq!(manager.get_refresh_token(), Some("r2".to_string()));
}

#[test]
fn buffer_is_configurable() {
    let mut manager = TokenManager::new(300);
    assert_eq!(manager.token_refresh_buffer(), 300);
    manager.set_token_refresh_buffer(5);
    assert_eq!(manager.token_refresh_buffer(), 5);
    manager.set_auth_data(pair(&token_expiring_in(10), "R"));
    let result = manager.ensure_valid_token(|_| -> Result<AuthData, ClientError> {
        panic!("no refresh is due")
    });
    assert_eq!(result, Ok(()));
}

#[test]
fn unset_store_needs_no_refresh() {
    let mut manager = TokenManager::new(300);
    let result = manager.ensure_valid_token(|_| -> Result<AuthData, ClientError> {
        panic!("no refresh is due")
    });
    assert_eq!(result, Ok(()));
    assert_eq!(manager.get_auth_data(), None);
}

#[test]
fn fresh_token_needs_no_refresh() {
    let mut manager = TokenManager::new(300);
    let token = token_expiring_in(3600);
    manager.set_auth_data(pair(&token, "R"));
    let result = manager.ensure_valid_token(|_| -> Result<AuthData, ClientError> {
        panic!("no refresh is due")
    });
    assert_eq!(result, Ok(()));
    assert_eq!(manager.get_auth_data(), Some(pair(&token, "R")));
}

#[test]
fn stale_token_is_refreshed_once_with_the_refresh_token() {
    let token_a = token_expiring_in(10);
    let token_b = token_expiring_in(3600);
    let mut manager = TokenManager::new(300);
    manager.set_auth_data(pair(&token_a, "R"));
    let calls = Cell::new(0);
    let result = manager.ensure_valid_token(|refresh_token| {
        calls.set(calls.get() + 1);
        assert_eq!(refresh_token, "R");
        Ok(pair(&token_b, "R2"))
    });
    assert_eq!(result, Ok(()));
    assert_eq!(calls.get(), 1);
    assert_eq!(manager.get_access_token(), Some(token_b.clone()));
    assert_eq!(manager.get_refresh_token(), Some("R2".to_string()));
}

#[test]
fn second_caller_finds_the_token_refreshed() {
    let token_a = token_expiring_in(10);
    let token_b = token_expiring_in(3600);
    let mut manager = TokenManager::new(300);
    manager.set_auth_data(pair(&token_a, "R"));
    let calls = Cell::new(0);
    let first = manager.ensure_valid_token(|_| {
        calls.set(calls.get() + 1);
        Ok(pair(&token_b, "R2"))
    });
    let second = manager.ensure_valid_token(|_| {
        calls.set(calls.get() + 1);
        Ok(pair("never", "stored"))
    });
    assert_eq!(first, Ok(()));
    assert_eq!(second, Ok(()));
    assert_eq!(calls.get(), 1);
    assert_eq!(manager.get_auth_data(), Some(pair(&token_b, "R2")));
}

#[test]
fn waiting_caller_skips_the_refresh_inside_the_section() {
    let now = chrono::Utc::now().timestamp();
    let token_a = token_with("user_id", "test_user", now + 10);
    let token_b = token_with("user_id", "test_user", now + 3600);
    let mut manager = TokenManager::new(300);
    manager.set_auth_data(pair(&token_a, "R"));
    let snapshot = manager.get_auth_data();
    assert_eq!(check_freshness(&snapshot, 300, now), Ok(Freshness::RefreshDue));
    assert_eq!(refresh_token_to_send(&snapshot, 300, now), Some("R".to_string()));
    assert_eq!(manager.complete_refresh(Ok(pair(&token_b, "R2"))), Ok(()));
    let current = manager.get_auth_data();
    assert_eq!(refresh_token_to_send(&current, 300, now), None);
    let calls = Cell::new(0);
    let result = manager.refresh_if_still_due(now, |_| {
        calls.set(calls.get() + 1);
        Ok(pair("never", "stored"))
    });
    assert_eq!(result, Ok(()));
    assert_eq!(calls.get(), 0);
    assert_eq!(manager.get_auth_data(), Some(pair(&token_b, "R2")));
}

#[test]
fn failed_refresh_is_handed_on_and_keeps_the_store() {
    let token_a = token_expiring_in(10);
    let mut manager = TokenManager::new(300);
    manager.set_auth_data(pair(&token_a, "R"));
    let result = manager.ensure_valid_token(|refresh_token| {
        assert_eq!(refresh_token, "R");
        Err(ClientError::RefreshFailed("Failed to refresh token: 401 Unauthorized".to_string()))
    });
    assert_eq!(
        result,
        Err(ClientError::RefreshFailed("Failed to refresh token: 401 Unauthorized".to_string()))
    );
    assert_eq!(manager.get_auth_data(), Some(pair(&token_a, "R")));
}

#[test]
fn undecodable_token_is_an_error_without_refresh() {
    let mut manager = TokenManager::new(300);
    manager.set_auth_data(pair("test_access", "test_refresh"));
    let result = manager.ensure_valid_token(|_| -> Result<AuthData, ClientError> {
        panic!("an undecodable token is not refreshed")
    });
    assert!(matches!(result, Err(ClientError::DecodeError(_))));
    assert_eq!(manager.get_auth_data(), Some(pair("test_access", "test_refresh")));
}

#[test]
fn looks_follow_the_clock_readings_given() {
    let token = token_with("user_id", "test_user", 2_000_000);
    let mut manager = TokenManager::new(300);
    manager.set_auth_data(pair(&token, "R"));
    let untouched = manager.ensure_valid_token_at(
        1_000_000,
        1_000_000,
        |_| -> Result<AuthData, ClientError> { panic!("no refresh is due") },
    );
    assert_eq!(untouched, Ok(()));
    let became_fresh = manager.ensure_valid_token_at(
        1_999_700,
        1_999_699,
        |_| -> Result<AuthData, ClientError> { panic!("the second look finds the token fresh") },
    );
    assert_eq!(became_fresh, Ok(()));
    let calls = Cell::new(0);
    let refreshed = manager.ensure_valid_token_at(1_999_700, 1_999_700, |refresh_token| {
        calls.set(calls.get() + 1);
        assert_eq!(refresh_token, "R");
        Ok(pair("B", "R2"))
    });
    assert_eq!(refreshed, Ok(()));
    assert_eq!(calls.get(), 1);
    assert_eq!(manager.get_auth_data(), Some(pair("B", "R2")));
}

#[test]
fn first_look_classifies_the_snapshot() {
    let token = token_with("user_id", "test_user", 1_000_300);
    assert_eq!(check_freshness(&None, 300, 0), Ok(Freshness::UpToDate));
    assert_eq!(check_freshness(&Some(pair(&token, "R")), 300, 1_000_000), Ok(Freshness::RefreshDue));
    assert_eq!(check_freshness(&Some(pair(&token, "R")), 300, 999_999), Ok(Freshness::UpToDate));
    assert!(matches!(
        check_freshness(&Some(pair("broken", "R")), 300, 0),
        Err(ClientError::DecodeError(_))
    ));
}

#[test]
fn second_look_refreshes_what_it_cannot_decode() {
    let token = token_with("user_id", "test_user", 1_000_300);
    assert_eq!(refresh_token_to_send(&None, 300, 0), None);
    assert_eq!(
        refresh_token_to_send(&Some(pair(&token, "R")), 300, 1_000_000),
        Some("R".to_string())
    );
    assert_eq!(refresh_token_to_send(&Some(pair(&token, "R")), 300, 999_999), None);
    assert_eq!(
        refresh_token_to_send(&Some(pair("broken", "R")), 300, 0),
        Some("R".to_string())
    );
}

#[test]
fn stored_pairs_are_announced() {
    let (sender, mut receiver) = tokio::sync::mpsc::unbounded_channel::<TokenUpdateEvent>();
    let mut manager = TokenManager::new_with_notifier(300, sender);
    assert!(receiver.try_recv().is_err());
    manager.set_auth_data(pair("a1", "r1"));
    assert_eq!(receiver.try_recv().unwrap(), TokenUpdateEvent { access_token: "a1".to_string() });
    assert_eq!(manager.complete_refresh(Ok(pair("a2", "r2"))), Ok(()));
    assert_eq!(receiver.try_recv().unwrap(), TokenUpdateEvent { access_token: "a2".to_string() });
    assert_eq!(
        manager.complete_refresh(Err(ClientError::Unauthorized)),
        Err(ClientError::Unauthorized)
    );
    assert!(receiver.try_recv().is_err());
    drop(receiver);
    manager.set_auth_data(pair("a3", "r3"));
    assert_eq!(manager.get_access_token(), Some("a3".to_string()));
}

#[test]
fn client_error_messages() {
    assert_eq!(ClientError::NotFound.message(), "Not Found");
    assert_eq!(ClientError::Unauthorized.message(), "Unauthorized");
    assert_eq!(ClientError::InvalidRequest("x".to_string()).message(), "Invalid Request: x");
    assert_eq!(ClientError::InternalError("y".to_string()).message(), "Internal Error: y");
    assert_eq!(ClientError::TransportError("z".to_string()).message(), "Transport Error: z");
    assert_eq!(ClientError::DecodeError("d".to_string()).message(), "Decode Error: d");
    assert_eq!(ClientError::RefreshFailed("r".to_string()).message(), "Refresh Failed: r");
    assert_eq!(
        ClientError::TransportError("z".to_string()).clone(),
        ClientError::TransportError("z".to_string())
    );
}

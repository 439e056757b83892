use blog_platform::api::rest::{PostResponse, TokenResponse};
use blog_platform::client::error::ClientError;
use blog_platform::client::http_client::{
    auth_data_from_response, created_post_id, is_success, post_from_response,
    post_from_response_at, posts_from_responses, posts_from_responses_at, refresh_failure,
    refresh_refusal, HttpClient,
};
use blog_platform::client::token_manager::TokenUpdateEvent;
use blog_platform::client::types::{AuthData, Post};
use blog_platform::time::UtcTime;

const FALLBACK: UtcTime = UtcTime { seconds: 77, nanos: 9 };

fn wire_post(uuid: &str, created_at: &str, updated_at: &str) -> PostResponse {
    PostResponse {
        uuid: uuid.to_string(),
        title: "Title".to_string(),
        content: "Content".to_string(),
        author_id: "00000000-0000-0000-0000-000000000001".to_string(),
        created_at: created_at.to_string(),
        updated_at: updated_at.to_string(),
    }
}

fn token_with_subject(sub: &str) -> String {
    let mut claims = serde_json::Map::new();
    claims.insert("sub".to_string(), serde_json::Value::from(sub));
    claims.insert("user_name".to_string(), serde_json::Value::from("alice"));
    claims.insert("exp".to_string(), serde_json::Value::from(1_900_000_000i64));
    jsonwebtoken::encode(
        &jsonwebtoken::Header::default(),
        &claims,
        &jsonwebtoken::EncodingKey::from_secret(b"test-secret"),
    )
    .unwrap()
}

#[test]
fn new_client_drops_trailing_slashes() {
    let client = HttpClient::new("http://localhost:8080//".to_string());
    assert_eq!(client.login_url(), "http://localhost:8080/api/v1/auth/login");
    assert_eq!(client.get_token(), None);
    assert_eq!(client.get_auth_data(), None);
    assert_eq!(client.token_manager().token_refresh_buffer(), 300);
}

#[test]
fn urls_of_the_routes() {
    let client = HttpClient::new("http://h".to_string());
    assert_eq!(client.refresh_url(), "http://h/auth/refresh");
    assert_eq!(client.login_url(), "http://h/api/v1/auth/login");
    assert_eq!(client.register_url(), "http://h/api/v1/auth/register");
    assert_eq!(client.posts_url(), "http://h/api/v1/posts");
    assert_eq!(client.post_url("abc"), "http://h/api/v1/posts/abc");
    assert_eq!(client.list_posts_url(10, 0), "http://h/api/v1/posts?page_size=10&page=0");
    assert_eq!(
        client.list_posts_url(255, 4294967295),
        "http://h/api/v1/posts?page_size=255&page=4294967295"
    );
}

#[test]
fn set_token_stores_an_empty_refresh_token() {
    let mut client = HttpClient::new("http://h".to_string());
    client.set_token("abc".to_string());
    assert_eq!(client.get_token(), Some("abc".to_string()));
    assert_eq!(
        client.get_auth_data(),
        Some(AuthData { access_token: "abc".to_string(), refresh_token: String::new() })
    );
    client.set_token_refresh_buffer(42);
    assert_eq!(client.token_manager().token_refresh_buffer(), 42);
    assert_eq!(client.get_token(), Some("abc".to_string()));
}

#[test]
fn setup_auth_data_stores_the_pair() {
    let mut client = HttpClient::new("http://h".to_string());
    let data = AuthData { access_token: "a".to_string(), refresh_token: "r".to_string() };
    client.setup_auth_data(data.clone());
    assert_eq!(client.get_auth_data(), Some(data));
    assert_eq!(client.complete_refresh(Err(ClientError::NotFound)), Err(ClientError::NotFound));
    assert_eq!(client.get_token(), Some("a".to_string()));
    let fresh = AuthData { access_token: "b".to_string(), refresh_token: "s".to_string() };
    assert_eq!(client.complete_refresh(Ok(fresh.clone())), Ok(()));
    assert_eq!(client.get_auth_data(), Some(fresh));
}

#[test]
fn notifier_announces_tokens_of_the_client() {
    let (sender, mut receiver) = tokio::sync::mpsc::unbounded_channel::<TokenUpdateEvent>();
    let mut client = HttpClient::new_with_token_notifier("http://h/".to_string(), sender);
    assert_eq!(client.posts_url(), "http://h/api/v1/posts");
    client.set_token("abc".to_string());
    assert_eq!(receiver.try_recv().unwrap(), TokenUpdateEvent { access_token: "abc".to_string() });
}

#[test]
fn headers_carry_the_bearer_token() {
    let mut client = HttpClient::new("http://h".to_string());
    assert_eq!(
        client.create_headers(),
        Ok(vec![("content-type".to_string(), "application/json".to_string())])
    );
    client.set_token("abc.def".to_string());
    assert_eq!(
        client.create_headers(),
        Ok(vec![
            ("content-type".to_string(), "application/json".to_string()),
            ("authorization".to_string(), "Bearer abc.def".to_string()),
        ])
    );
}

#[test]
fn headers_refuse_a_token_with_control_characters() {
    let mut client = HttpClient::new("http://h".to_string());
    client.set_token("abc\ndef".to_string());
    assert_eq!(
        client.create_headers(),
        Err(ClientError::InternalError(
            "Invalid header value: failed to parse header value".to_string()
        ))
    );
    client.set_token("abc\u{7f}".to_string());
    assert!(client.create_headers().is_err());
    client.set_token("tab\tand é are fine".to_string());
    assert!(client.create_headers().is_ok());
}

#[test]
fn statuses_map_to_errors() {
    assert_eq!(
        HttpClient::handle_error_response(401, Some("ignored".to_string())),
        ClientError::Unauthorized
    );
    assert_eq!(HttpClient::handle_error_response(404, None), ClientError::NotFound);
    assert_eq!(
        HttpClient::handle_error_response(400, Some("bad".to_string())),
        ClientError::InvalidRequest("bad".to_string())
    );
    assert_eq!(
        HttpClient::handle_error_response(499, None),
        ClientError::InvalidRequest("Unknown error".to_string())
    );
    assert_eq!(
        HttpClient::handle_error_response(500, Some("boom".to_string())),
        ClientError::InternalError("boom".to_string())
    );
    assert_eq!(
        HttpClient::handle_error_response(302, None),
        ClientError::InternalError("Unknown error".to_string())
    );
}

#[test]
fn success_statuses() {
    assert!(is_success(200));
    assert!(is_success(204));
    assert!(is_success(299));
    assert!(!is_success(199));
    assert!(!is_success(300));
    assert!(!is_success(404));
}

#[test]
fn refresh_failure_names_the_status() {
    assert_eq!(
        refresh_failure("401 Unauthorized"),
        ClientError::RefreshFailed("Failed to refresh token: 401 Unauthorized".to_string())
    );
}

#[test]
fn rejected_refresh_is_no_transport_error() {
    assert_eq!(refresh_refusal(200, "200 OK"), None);
    assert_eq!(refresh_refusal(204, "204 No Content"), None);
    assert_eq!(
        refresh_refusal(401, "401 Unauthorized"),
        Some(ClientError::RefreshFailed("Failed to refresh token: 401 Unauthorized".to_string()))
    );
    assert_eq!(
        refresh_refusal(500, "500 Internal Server Error"),
        Some(ClientError::RefreshFailed(
            "Failed to refresh token: 500 Internal Server Error".to_string()
        ))
    );
    assert!(!matches!(refresh_refusal(401, "401 Unauthorized"), Some(ClientError::TransportError(_))));
}

#[test]
fn token_response_becomes_the_pair() {
    let response = TokenResponse {
        access_token: "a".to_string(),
        refresh_token: "r".to_string(),
        expires_in: 86400,
    };
    assert_eq!(
        auth_data_from_response(&response),
        AuthData { access_token: "a".to_string(), refresh_token: "r".to_string() }
    );
}

#[test]
fn login_stores_tokens_and_names_the_user() {
    let mut client = HttpClient::new("http://h".to_string());
    let access = token_with_subject("00000000-0000-0000-0000-0000000000ff");
    let response = TokenResponse {
        access_token: access.clone(),
        refresh_token: "r".to_string(),
        expires_in: 86400,
    };
    assert_eq!(client.accept_login(&response), 255);
    assert_eq!(
        client.get_auth_data(),
        Some(AuthData { access_token: access, refresh_token: "r".to_string() })
    );
    let opaque = TokenResponse {
        access_token: "opaque".to_string(),
        refresh_token: "r2".to_string(),
        expires_in: 1,
    };
    assert_eq!(client.accept_login(&opaque), 0);
    assert_eq!(client.get_token(), Some("opaque".to_string()));
}

#[test]
fn created_post_id_parses_the_identifier() {
    let good = wire_post("550e8400-e29b-41d4-a716-446655440000", "", "");
    assert_eq!(created_post_id(&good), Ok(0x550e8400_e29b_41d4_a716_446655440000));
    let bad = wire_post("nope", "", "");
    match created_post_id(&bad) {
        Err(ClientError::InternalError(message)) => {
            assert!(message.starts_with("Invalid UUID: "));
            assert!(message.len() > "Invalid UUID: ".len());
        }
        other => panic!("unexpected result: {:?}", other),
    }
}

#[test]
fn post_converts_with_its_instants() {
    let wire = wire_post(
        "550e8400-e29b-41d4-a716-446655440000",
        "2015-05-15T00:00:00Z",
        "2015-05-15T02:00:00.5+02:00",
    );
    assert_eq!(
        post_from_response_at(&wire, FALLBACK),
        Ok(Post {
            id: 0x550e8400_e29b_41d4_a716_446655440000,
            title: "Title".to_string(),
            content: "Content".to_string(),
            created_at: UtcTime { seconds: 1431648000, nanos: 0 },
            updated_at: UtcTime { seconds: 1431648000, nanos: 500_000_000 },
        })
    );
}

#[test]
fn unreadable_instant_falls_back() {
    let wire = wire_post("550e8400-e29b-41d4-a716-446655440000", "yesterday", "");
    let post = post_from_response_at(&wire, FALLBACK).unwrap();
    assert_eq!(post.created_at, FALLBACK);
    assert_eq!(post.updated_at, FALLBACK);
    let before = chrono::Utc::now().timestamp();
    let post = post_from_response(&wire).unwrap();
    assert!(post.created_at.seconds >= before);
    assert_eq!(post.created_at, post.updated_at);
}

#[test]
fn page_converts_in_order_or_fails_on_the_first_bad_post() {
    let first = wire_post("00000000-0000-0000-0000-000000000001", "2015-05-15T00:00:00Z", "x");
    let second = wire_post("00000000-0000-0000-0000-000000000002", "x", "2015-05-15T00:00:00Z");
    let posts = posts_from_responses_at(&vec![first, second], FALLBACK).unwrap();
    assert_eq!(posts.len(), 2);
    assert_eq!(posts[0].id, 1);
    assert_eq!(posts[0].created_at, UtcTime { seconds: 1431648000, nanos: 0 });
    assert_eq!(posts[0].updated_at, FALLBACK);
    assert_eq!(posts[1].id, 2);
    assert_eq!(posts[1].created_at, FALLBACK);
    assert_eq!(posts_from_responses_at(&vec![], FALLBACK), Ok(vec![]));

    let good = wire_post("00000000-0000-0000-0000-000000000001", "", "");
    let bad = wire_post("bad-one", "", "");
    let worse = wire_post("", "", "");
    let expected = created_post_id(&bad).unwrap_err();
    assert_eq!(posts_from_responses_at(&vec![good, bad, worse], FALLBACK), Err(expected.clone()));
    let good = wire_post("00000000-0000-0000-0000-000000000001", "", "");
    let bad = wire_post("bad-one", "", "");
    assert_eq!(posts_from_responses(&vec![good, bad]), Err(expected));
}

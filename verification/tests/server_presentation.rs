use blog_platform::api::grpc::{
    JwtContainer, Post as WirePost, Response, Status, Timestamp,
};
use blog_platform::api::rest::{PostResponse, TokenResponse};
use blog_platform::server::auth_service::{AuthService, Claims};
use blog_platform::server::domain::{DomainError, User};
use blog_platform::server::dto::{PostDto, TokenDto};
use blog_platform::server::presentation::error::ApiError;
use blog_platform::server::presentation::grpc::{
    author_of, create_post_response, delete_post_response, extract_token_from_metadata,
    get_post_response, list_posts_response, login_response, login_response_at, map_domain_error,
    post_id_of, post_of, register_response, update_post_response, wire_post, AuthInterceptor,
    Authorization, Rejection, RejectionCode,
};
use blog_platform::server::presentation::http::{
    check_author, jwt_validator, parse_post_id, post_response, registered_user, require_user,
    token_response, AuthenticatedUser, Change, RegisteredUser, TokenRefusal,
};
use blog_platform::time::UtcTime;

fn service() -> AuthService {
    AuthService::new(3600, b"server-secret")
}

fn rejection(code: RejectionCode, message: &str) -> Rejection {
    Rejection { code, message: message.to_string() }
}

fn outcome(code: Status, details: &str) -> Option<Response> {
    Some(Response { code, details: Some(details.to_string()) })
}

fn dto() -> PostDto {
    PostDto {
        uuid: 0x550e8400_e29b_41d4_a716_446655440000,
        title: "T".to_string(),
        content: "C".to_string(),
        author_id: 7,
        created_at: UtcTime { seconds: 1431648000, nanos: 0 },
        updated_at: UtcTime { seconds: 1431648001, nanos: 500_000_000 },
    }
}

fn wire() -> WirePost {
    WirePost {
        id: "550e8400-e29b-41d4-a716-446655440000".to_string(),
        title: "T".to_string(),
        data: "C".to_string(),
        created_ts: Some(Timestamp { seconds: 1431648000, nanos: 0 }),
        last_updated_ts: Some(Timestamp { seconds: 1431648001, nanos: 500_000_000 }),
    }
}

#[test]
fn bearer_token_is_read_from_the_metadata() {
    assert_eq!(
        extract_token_from_metadata(&Authorization::Text("Bearer abc".to_string())),
        Ok("abc".to_string())
    );
    assert_eq!(
        extract_token_from_metadata(&Authorization::Text("Bearer Bearer abc".to_string())),
        Ok("abc".to_string())
    );
    assert_eq!(
        extract_token_from_metadata(&Authorization::Text("Bearer ".to_string())),
        Ok(String::new())
    );
    assert_eq!(
        extract_token_from_metadata(&Authorization::Missing),
        Err(rejection(RejectionCode::Unauthenticated, "Missing authorization header"))
    );
    assert_eq!(
        extract_token_from_metadata(&Authorization::Unreadable),
        Err(rejection(RejectionCode::Unauthenticated, "Invalid authorization header"))
    );
    assert_eq!(
        extract_token_from_metadata(&Authorization::Text("Basic abc".to_string())),
        Err(rejection(RejectionCode::Unauthenticated, "Invalid authorization format"))
    );
    assert_eq!(
        extract_token_from_metadata(&Authorization::Text("bearer abc".to_string())),
        Err(rejection(RejectionCode::Unauthenticated, "Invalid authorization format"))
    );
}

#[test]
fn interceptor_checks_the_token() {
    let token = service().generate_token("00000000-0000-0000-0000-000000000007", "alice").unwrap();
    let interceptor = AuthInterceptor::new(service());
    let mut header = "Bearer ".to_string();
    header.push_str(&token);
    let claims: Claims = interceptor.verify_token(&Authorization::Text(header)).unwrap();
    assert_eq!(claims.sub, "00000000-0000-0000-0000-000000000007");
    assert_eq!(claims.user_name, "alice");
    assert_eq!(author_of(&claims), Ok(7));
    assert_eq!(
        interceptor.verify_token(&Authorization::Text("Bearer garbage".to_string())),
        Err(rejection(RejectionCode::Unauthenticated, "Invalid or expired token"))
    );
    assert_eq!(
        interceptor.verify_token(&Authorization::Missing),
        Err(rejection(RejectionCode::Unauthenticated, "Missing authorization header"))
    );
    assert_eq!(
        interceptor.verify_token(&Authorization::Text(token)),
        Err(rejection(RejectionCode::Unauthenticated, "Invalid authorization format"))
    );
}

#[test]
fn requests_are_turned_away() {
    let claims = Claims { sub: "bob".to_string(), user_name: "bob".to_string(), exp: 1, iat: 1 };
    assert_eq!(
        author_of(&claims),
        Err(rejection(RejectionCode::Internal, "Invalid user ID in token"))
    );
    assert_eq!(post_id_of("00000000-0000-0000-0000-000000000009"), Ok(9));
    assert_eq!(
        post_id_of("nine"),
        Err(rejection(RejectionCode::InvalidArgument, "Invalid UUID format"))
    );
    assert_eq!(post_of(Some(wire())), Ok(wire()));
    assert_eq!(
        post_of(None),
        Err(rejection(RejectionCode::InvalidArgument, "Post data is required"))
    );
}

#[test]
fn domain_errors_map_to_outcomes() {
    let cases = vec![
        (DomainError::UserAlreadyExists { username: "bob".to_string() }, Status::InvalidRequest),
        (DomainError::UserNotFound { username: "bob".to_string() }, Status::Unauthorized),
        (DomainError::InvalidCredentials, Status::Unauthorized),
        (DomainError::InvalidPassword { reason: "r".to_string() }, Status::InternalError),
        (DomainError::PostNotFound { post_id: 1 }, Status::InvalidRequest),
        (DomainError::Forbidden { reason: "r".to_string() }, Status::Unauthorized),
        (DomainError::RepositoryError("r".to_string()), Status::InternalError),
        (DomainError::TokenGenerationError("r".to_string()), Status::InternalError),
        (DomainError::TokenValidationError("r".to_string()), Status::InternalError),
    ];
    for (error, code) in cases {
        assert_eq!(
            map_domain_error(&error),
            Response { code, details: Some(error.message()) }
        );
    }
}

#[test]
fn registration_and_deletion_answers() {
    let user = User::new(
        1,
        "bob".to_string(),
        "bob@example.com".to_string(),
        "hash".to_string(),
        UtcTime { seconds: 0, nanos: 0 },
    );
    assert_eq!(
        register_response(&Ok(user)).status,
        outcome(Status::Success, "User registered successfully")
    );
    assert_eq!(
        register_response(&Err(DomainError::UserAlreadyExists { username: "bob".to_string() }))
            .status,
        outcome(Status::InvalidRequest, "User already exists: bob")
    );
    assert_eq!(
        delete_post_response(&Ok(())).status,
        outcome(Status::Success, "Post deleted successfully")
    );
    assert_eq!(
        delete_post_response(&Err(DomainError::Forbidden { reason: "r".to_string() })).status,
        outcome(Status::Unauthorized, "Forbidden: r")
    );
}

#[test]
fn login_answer_carries_tokens_and_expiry() {
    let tokens =
        TokenDto { access_token: "a".to_string(), refresh_token: "r".to_string(), expires_in: 86400 };
    let answer =
        login_response_at(Ok(tokens), UtcTime { seconds: 1431648000, nanos: 12 }).unwrap();
    assert_eq!(answer.status, outcome(Status::Success, "Login successful"));
    assert_eq!(
        answer.token,
        Some(JwtContainer {
            access_token: "a".to_string(),
            refresh_token: "r".to_string(),
            expires_in: Some(Timestamp { seconds: 1431648000 + 86400, nanos: 12 }),
        })
    );
    let refused = login_response_at(
        Err(DomainError::InvalidCredentials),
        UtcTime { seconds: 1431648000, nanos: 12 },
    )
    .unwrap();
    assert_eq!(refused.status, outcome(Status::Unauthorized, "Invalid credentials"));
    assert_eq!(refused.token, None);
    let endless = TokenDto {
        access_token: "a".to_string(),
        refresh_token: "r".to_string(),
        expires_in: i64::MAX,
    };
    assert_eq!(login_response_at(Ok(endless), UtcTime { seconds: 1431648000, nanos: 12 }), None);
    let tokens =
        TokenDto { access_token: "a".to_string(), refresh_token: "r".to_string(), expires_in: 60 };
    let before = chrono::Utc::now().timestamp();
    let answer = login_response(Ok(tokens)).unwrap();
    assert!(answer.token.unwrap().expires_in.unwrap().seconds >= before + 60);
}

#[test]
fn post_answers() {
    assert_eq!(wire_post(&dto()), wire());
    let created = create_post_response(&Ok(dto()));
    assert_eq!(created.response, outcome(Status::Success, "Post created successfully"));
    assert_eq!(created.post, Some(wire()));
    let read = get_post_response(&Ok(dto()));
    assert_eq!(read.response, outcome(Status::Success, "Post retrieved successfully"));
    assert_eq!(read.post, Some(wire()));
    let updated = update_post_response(&Ok(dto()));
    assert_eq!(updated.response, outcome(Status::Success, "Post updated successfully"));
    let missing = get_post_response(&Err(DomainError::PostNotFound { post_id: 1 }));
    assert_eq!(
        missing.response,
        outcome(Status::InvalidRequest, "Post not found: 00000000-0000-0000-0000-000000000001")
    );
    assert_eq!(missing.post, None);
}

#[test]
fn listing_answers() {
    let listed = list_posts_response(&Ok(vec![dto(), dto()]));
    assert_eq!(listed.status, outcome(Status::Success, "Posts retrieved successfully"));
    assert_eq!(listed.posts, vec![wire(), wire()]);
    let failed = list_posts_response(&Err(DomainError::RepositoryError("db".to_string())));
    assert_eq!(failed.status, outcome(Status::InternalError, "Repository error: db"));
    assert_eq!(failed.posts, vec![]);
}

#[test]
fn validator_names_the_user() {
    let service = service();
    let token = service.generate_token("00000000-0000-0000-0000-000000000007", "alice").unwrap();
    assert_eq!(
        jwt_validator(Some(&service), &token),
        Ok(AuthenticatedUser { user_id: 7, username: "alice".to_string() })
    );
    assert_eq!(jwt_validator(None, &token), Err(TokenRefusal::ServiceMissing));
    assert_eq!(jwt_validator(Some(&service), "garbage"), Err(TokenRefusal::Invalid));
    let nameless = service.generate_token("alice", "alice").unwrap();
    assert_eq!(jwt_validator(Some(&service), &nameless), Err(TokenRefusal::Malformed));
    assert_eq!(TokenRefusal::ServiceMissing.message(), "Internal server error");
    assert_eq!(TokenRefusal::Invalid.message(), "Invalid or expired token");
    assert_eq!(TokenRefusal::Malformed.message(), "Invalid token format");
}

#[test]
fn handlers_turn_requests_away() {
    let user = AuthenticatedUser { user_id: 7, username: "alice".to_string() };
    assert_eq!(require_user(Some(user.clone())), Ok(user));
    assert_eq!(
        require_user(None),
        Err(ApiError::Unauthorized("Authentication required".to_string()))
    );
    assert_eq!(parse_post_id("00000000-0000-0000-0000-000000000009"), Ok(9));
    assert_eq!(
        parse_post_id("9"),
        Err(ApiError::BadRequest("Invalid UUID format".to_string()))
    );
    assert_eq!(check_author(7, 7, Change::Update), Ok(()));
    assert_eq!(check_author(7, 7, Change::Delete), Ok(()));
    assert_eq!(
        check_author(7, 8, Change::Update),
        Err(ApiError::Forbidden("You can only update your own posts".to_string()))
    );
    assert_eq!(
        check_author(7, 8, Change::Delete),
        Err(ApiError::Forbidden("You can only delete your own posts".to_string()))
    );
}

#[test]
fn rest_forms_of_the_answers() {
    let tokens =
        TokenDto { access_token: "a".to_string(), refresh_token: "r".to_string(), expires_in: 86400 };
    assert_eq!(
        token_response(tokens),
        TokenResponse {
            access_token: "a".to_string(),
            refresh_token: "r".to_string(),
            expires_in: 86400,
        }
    );
    assert_eq!(
        post_response(&dto()),
        Some(PostResponse {
            uuid: "550e8400-e29b-41d4-a716-446655440000".to_string(),
            title: "T".to_string(),
            content: "C".to_string(),
            author_id: "00000000-0000-0000-0000-000000000007".to_string(),
            created_at: "2015-05-15T00:00:00+00:00".to_string(),
            updated_at: "2015-05-15T00:00:01.500+00:00".to_string(),
        })
    );
    let mut off_calendar = dto();
    off_calendar.updated_at = UtcTime { seconds: i64::MAX, nanos: 0 };
    assert_eq!(post_response(&off_calendar), None);
    let user = User::new(
        7,
        "bob".to_string(),
        "bob@example.com".to_string(),
        "hash".to_string(),
        UtcTime { seconds: 1431648000, nanos: 0 },
    );
    assert_eq!(
        registered_user(&user),
        Some(RegisteredUser {
            id: "00000000-0000-0000-0000-000000000007".to_string(),
            username: "bob".to_string(),
            email: "bob@example.com".to_string(),
            created_at: "2015-05-15T00:00:00+00:00".to_string(),
        })
    );
}

#[test]
fn served_post_is_read_back_by_the_client() {
    let served = post_response(&dto()).unwrap();
    let read = blog_platform::client::http_client::post_from_response_at(
        &served,
        UtcTime { seconds: 0, nanos: 0 },
    )
    .unwrap();
    assert_eq!(read.id, dto().uuid);
    assert_eq!(read.created_at, dto().created_at);
    assert_eq!(read.updated_at, dto().updated_at);
    let over_grpc = blog_platform::client::grpc_client::proto_post_to_client_post_at(
        wire_post(&dto()),
        UtcTime { seconds: 0, nanos: 0 },
    )
    .unwrap();
    assert_eq!(over_grpc.id, dto().uuid);
    assert_eq!(over_grpc.updated_at, dto().updated_at);
}

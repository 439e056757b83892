//! The gRPC service without its transport: who may call, and what each
//! outcome of a use case is answered with.

use vstd::prelude::*;
use vstd::string::*;
use crate::api::grpc::{
    DeletePostResponse,
    JwtContainer,
    ListPostsResponse,
    LoginResponse,
    Post as WirePost,
    PostResponse,
    RegisterResponse,
    Response,
    Status,
    Timestamp,
};
use crate::bindings::clock::is_utc_instant;
use crate::bindings::ids::{format_uuid, parse_uuid, parsed_uuid, uuid_text};
use crate::client::grpc_client::{datetime_to_timestamp, signed_nanos};
use crate::server::auth_service::{carried_by, AuthService, Claims};
use crate::server::domain::{DomainError, DomainErrorView, User};
use crate::server::dto::{PostDto, TokenDto};
use crate::text::{starts_with, trim_leading, without_leading};
use crate::time::UtcTime;

verus! {

/// Why a call is turned away before it reaches a use case.
#[derive(Debug, Clone, Copy, PartialEq, Eq, Structural)]
pub enum RejectionCode {
    Unauthenticated,
    InvalidArgument,
    Internal,
}

/// A call turned away, with the message for the caller.
#[derive(Debug, PartialEq, Eq)]
pub struct Rejection {
    pub code: RejectionCode,
    pub message: String,
}

/// Whether `result` turns the call away with the given code and message.
pub open spec fn rejects<T>(result: Result<T, Rejection>, code: RejectionCode, message: Seq<char>) -> bool {
    result matches Err(rejection) && rejection.code == code && rejection.message@ == message
}

fn reject<T>(code: RejectionCode, message: &str) -> (result: Result<T, Rejection>)
    ensures
        rejects(result, code, message@),
{
    Err(Rejection { code, message: String::from_str(message) })
}

/// The `authorization` entry of a call's metadata.
#[derive(Debug, PartialEq, Eq)]
pub enum Authorization {
    /// The call has no such entry.
    Missing,
    /// The entry is not text.
    Unreadable,
    /// The entry, as text.
    Text(String),
}

/// Whether `result` is what reading the bearer token out of `header` comes
/// to. The entry must begin with `Bearer `; the token is what follows,
/// without further copies of that word at its start.
pub open spec fn token_extracted(header: Authorization, result: Result<String, Rejection>) -> bool {
    match header {
        Authorization::Missing => rejects(
            result,
            RejectionCode::Unauthenticated,
            "Missing authorization header"@,
        ),
        Authorization::Unreadable => rejects(
            result,
            RejectionCode::Unauthenticated,
            "Invalid authorization header"@,
        ),
        Authorization::Text(text) => if "Bearer "@.is_prefix_of(text@) {
            result matches Ok(token) && token@ == without_leading(text@, "Bearer "@)
        } else {
            rejects(result, RejectionCode::Unauthenticated, "Invalid authorization format"@)
        },
    }
}

/// Reads the bearer token out of the `authorization` entry of a call.
pub fn extract_token_from_metadata(header: &Authorization) -> (result: Result<String, Rejection>)
    ensures
        token_extracted(*header, result),
{
    match header {
        Authorization::Missing => reject(
            RejectionCode::Unauthenticated,
            "Missing authorization header",
        ),
        Authorization::Unreadable => reject(
            RejectionCode::Unauthenticated,
            "Invalid authorization header",
        ),
        Authorization::Text(text) => {
            if !starts_with(text.as_str(), "Bearer ") {
                return reject(RejectionCode::Unauthenticated, "Invalid authorization format");
            }
            Ok(trim_leading(text.as_str(), "Bearer "))
        },
    }
}

/// Checks the token of a call.
pub struct AuthInterceptor {
    auth_service: AuthService,
}

impl AuthInterceptor {
    /// The service that checks the tokens.
    pub closed spec fn service(&self) -> AuthService {
        self.auth_service
    }

    pub fn new(auth_service: AuthService) -> (interceptor: Self)
        ensures
            interceptor.service() == auth_service,
    {
        AuthInterceptor { auth_service }
    }

    /// The claims of the caller. A call without a readable bearer token is
    /// turned away as [`extract_token_from_metadata`] says, one whose token
    /// does not pass the check as unauthenticated. Claims that are returned
    /// are those the token carries.
    pub fn verify_token(&self, header: &Authorization) -> (result: Result<Claims, Rejection>)
        ensures
            match result {
                Ok(claims) => exists|token: String|
                    #[trigger] token_extracted(*header, Ok(token)) && carried_by(claims, token@),
                Err(rejection) => token_extracted(*header, Err(rejection)) || (
                *header is Text && rejection.code == RejectionCode::Unauthenticated
                    && rejection.message@ == "Invalid or expired token"@),
            },
    {
        let token = match extract_token_from_metadata(header) {
            Ok(token) => token,
            Err(rejection) => {
                return Err(rejection);
            },
        };
        match self.auth_service.verify_token(token.as_str()) {
            Some(claims) => {
                assert(token_extracted(*header, Ok(token)));
                Ok(claims)
            },
            None => reject(RejectionCode::Unauthenticated, "Invalid or expired token"),
        }
    }
}

/// The identifier of the caller, read from the claims.
pub fn author_of(claims: &Claims) -> (result: Result<u128, Rejection>)
    ensures
        match parsed_uuid(claims.sub@) {
            Ok(id) => result == Ok::<u128, Rejection>(id),
            Err(_) => rejects(result, RejectionCode::Internal, "Invalid user ID in token"@),
        },
{
    match parse_uuid(claims.sub.as_str()) {
        Ok(id) => Ok(id),
        Err(_) => reject(RejectionCode::Internal, "Invalid user ID in token"),
    }
}

/// The identifier of a post, read from a request.
pub fn post_id_of(text: &str) -> (result: Result<u128, Rejection>)
    ensures
        match parsed_uuid(text@) {
            Ok(id) => result == Ok::<u128, Rejection>(id),
            Err(_) => rejects(result, RejectionCode::InvalidArgument, "Invalid UUID format"@),
        },
{
    match parse_uuid(text) {
        Ok(id) => Ok(id),
        Err(_) => reject(RejectionCode::InvalidArgument, "Invalid UUID format"),
    }
}

/// The post of a request to change one; a request without a post is turned
/// away.
pub fn post_of(post: Option<WirePost>) -> (result: Result<WirePost, Rejection>)
    ensures
        match post {
            Some(given) => result == Ok::<WirePost, Rejection>(given),
            None => rejects(result, RejectionCode::InvalidArgument, "Post data is required"@),
        },
{
    match post {
        Some(given) => Ok(given),
        None => reject(RejectionCode::InvalidArgument, "Post data is required"),
    }
}

/// The outcome class that a domain error is answered with.
pub open spec fn status_of(error: DomainErrorView) -> Status {
    match error {
        DomainErrorView::UserAlreadyExists { .. } => Status::InvalidRequest,
        DomainErrorView::UserNotFound { .. } => Status::Unauthorized,
        DomainErrorView::InvalidCredentials => Status::Unauthorized,
        DomainErrorView::PostNotFound { .. } => Status::InvalidRequest,
        DomainErrorView::Forbidden { .. } => Status::Unauthorized,
        _ => Status::InternalError,
    }
}

/// Whether `response` is the outcome with the given class and explanation.
pub open spec fn is_outcome(response: Option<Response>, code: Status, details: Seq<char>) -> bool {
    &&& response matches Some(outcome)
    &&& outcome.code == code
    &&& outcome.details matches Some(text)
    &&& text@ == details
}

/// The outcome that a domain error is answered with; the explanation is the
/// text of the error.
pub fn map_domain_error(error: &DomainError) -> (response: Response)
    ensures
        is_outcome(Some(response), status_of(error@), error@.message()),
{
    let details = Some(error.message());
    match error {
        DomainError::UserAlreadyExists { .. } => Response { code: Status::InvalidRequest, details },
        DomainError::UserNotFound { .. } => Response { code: Status::Unauthorized, details },
        DomainError::InvalidCredentials => Response { code: Status::Unauthorized, details },
        DomainError::PostNotFound { .. } => Response { code: Status::InvalidRequest, details },
        DomainError::Forbidden { .. } => Response { code: Status::Unauthorized, details },
        _ => Response { code: Status::InternalError, details },
    }
}

fn success(details: &str) -> (response: Option<Response>)
    ensures
        is_outcome(response, Status::Success, details@),
{
    Some(Response { code: Status::Success, details: Some(String::from_str(details)) })
}

/// The answer to a registration.
pub fn register_response(result: &Result<User, DomainError>) -> (response: RegisterResponse)
    ensures
        match result {
            Ok(_) => is_outcome(response.status, Status::Success, "User registered successfully"@),
            Err(error) => is_outcome(response.status, status_of(error@), error@.message()),
        },
{
    match result {
        Ok(_) => RegisterResponse { status: success("User registered successfully") },
        Err(error) => RegisterResponse { status: Some(map_domain_error(error)) },
    }
}

/// The instant `lifetime` seconds after `now`, where the calendar has one.
pub open spec fn expiry_instant(now: UtcTime, lifetime: i64) -> Option<UtcTime> {
    let seconds = now.seconds + lifetime;
    if i64::MIN <= seconds <= i64::MAX && is_utc_instant(seconds as i64, now.nanos) {
        Some(UtcTime { seconds: seconds as i64, nanos: now.nanos })
    } else {
        None
    }
}

/// Whether `response` is the answer to a login that came to `result` at the
/// instant `now`. A successful login is answered with the tokens and the
/// instant at which the access token expires.
pub open spec fn answers_login(
    result: Result<TokenDto, DomainError>,
    now: UtcTime,
    response: Option<LoginResponse>,
) -> bool {
    match result {
        Err(error) => response matches Some(answer) && answer.token is None && is_outcome(
            answer.status,
            status_of(error@),
            error@.message(),
        ),
        Ok(tokens) => match expiry_instant(now, tokens.expires_in) {
            None => response is None,
            Some(expiry) => {
                &&& response matches Some(answer)
                &&& is_outcome(answer.status, Status::Success, "Login successful"@)
                &&& answer.token matches Some(container)
                &&& container.access_token@ == tokens.access_token@
                &&& container.refresh_token@ == tokens.refresh_token@
                &&& container.expires_in == Some(
                    Timestamp { seconds: expiry.seconds, nanos: signed_nanos(expiry.nanos) },
                )
            },
        },
    }
}

/// The answer to a login that came to `result` at the instant `now`. There
/// is none where the calendar has no instant for the expiry of the token.
pub fn login_response_at(result: Result<TokenDto, DomainError>, now: UtcTime) -> (response: Option<
    LoginResponse,
>)
    ensures
        answers_login(result, now, response),
{
    match result {
        Err(error) => Some(LoginResponse { status: Some(map_domain_error(&error)), token: None }),
        Ok(tokens) => {
            let seconds: i128 = now.seconds as i128 + tokens.expires_in as i128;
            if seconds < i64::MIN as i128 || seconds > i64::MAX as i128 {
                return None;
            }
            let expiry = UtcTime::from_timestamp(seconds as i64, now.nanos)?;
            Some(
                LoginResponse {
                    status: success("Login successful"),
                    token: Some(
                        JwtContainer {
                            access_token: tokens.access_token,
                            refresh_token: tokens.refresh_token,
                            expires_in: datetime_to_timestamp(expiry),
                        },
                    ),
                },
            )
        },
    }
}

/// The answer to a login that came to `result` now.
pub fn login_response(result: Result<TokenDto, DomainError>) -> (response: Option<LoginResponse>)
    ensures
        exists|now: UtcTime| now.on_calendar() && #[trigger] answers_login(result, now, response),
{
    let now = UtcTime::now();
    login_response_at(result, now)
}

/// Whether `post` is the wire form of `dto`.
pub open spec fn is_wire_form(post: WirePost, dto: PostDto) -> bool {
    &&& post.id@ == uuid_text(dto.uuid)
    &&& post.title@ == dto.title@
    &&& post.data@ == dto.content@
    &&& post.created_ts == Some(
        Timestamp { seconds: dto.created_at.seconds, nanos: signed_nanos(dto.created_at.nanos) },
    )
    &&& post.last_updated_ts == Some(
        Timestamp { seconds: dto.updated_at.seconds, nanos: signed_nanos(dto.updated_at.nanos) },
    )
}

/// The wire form of a post.
pub fn wire_post(dto: &PostDto) -> (post: WirePost)
    ensures
        is_wire_form(post, *dto),
{
    WirePost {
        id: format_uuid(dto.uuid),
        title: dto.title.clone(),
        data: dto.content.clone(),
        created_ts: datetime_to_timestamp(dto.created_at),
        last_updated_ts: datetime_to_timestamp(dto.updated_at),
    }
}

/// Whether `response` answers a call for one post that came to `result`,
/// with `done` as the explanation of a success.
pub open spec fn answers_post(
    result: Result<PostDto, DomainError>,
    done: Seq<char>,
    response: PostResponse,
) -> bool {
    match result {
        Ok(dto) => {
            &&& is_outcome(response.response, Status::Success, done)
            &&& response.post matches Some(post)
            &&& is_wire_form(post, dto)
        },
        Err(error) => is_outcome(response.response, status_of(error@), error@.message())
            && response.post is None,
    }
}

fn post_response(result: &Result<PostDto, DomainError>, done: &str) -> (response: PostResponse)
    ensures
        answers_post(*result, done@, response),
{
    match result {
        Ok(dto) => PostResponse { response: success(done), post: Some(wire_post(dto)) },
        Err(error) => PostResponse { response: Some(map_domain_error(error)), post: None },
    }
}

/// The answer to the creation of a post.
pub fn create_post_response(result: &Result<PostDto, DomainError>) -> (response: PostResponse)
    ensures
        answers_post(*result, "Post created successfully"@, response),
{
    post_response(result, "Post created successfully")
}

/// The answer to the reading of a post.
pub fn get_post_response(result: &Result<PostDto, DomainError>) -> (response: PostResponse)
    ensures
        answers_post(*result, "Post retrieved successfully"@, response),
{
    post_response(result, "Post retrieved successfully")
}

/// The answer to the change of a post.
pub fn update_post_response(result: &Result<PostDto, DomainError>) -> (response: PostResponse)
    ensures
        answers_post(*result, "Post updated successfully"@, response),
{
    post_response(result, "Post updated successfully")
}

/// The answer to the deletion of a post.
pub fn delete_post_response(result: &Result<(), DomainError>) -> (response: DeletePostResponse)
    ensures
        match result {
            Ok(_) => is_outcome(response.status, Status::Success, "Post deleted successfully"@),
            Err(error) => is_outcome(response.status, status_of(error@), error@.message()),
        },
{
    match result {
        Ok(_) => DeletePostResponse { status: success("Post deleted successfully") },
        Err(error) => DeletePostResponse { status: Some(map_domain_error(error)) },
    }
}

/// The answer to the listing of posts: the posts in their order, or the
/// error and no posts.
pub fn list_posts_response(result: &Result<Vec<PostDto>, DomainError>) -> (response:
    ListPostsResponse)
    ensures
        match result {
            Ok(dtos) => {
                &&& is_outcome(response.status, Status::Success, "Posts retrieved successfully"@)
                &&& response.posts@.len() == dtos@.len()
                &&& forall|i: int|
                    0 <= i < dtos@.len() ==> is_wire_form(#[trigger] response.posts@[i], dtos@[i])
            },
            Err(error) => is_outcome(response.status, status_of(error@), error@.message())
                && response.posts@.len() == 0,
        },
{
    match result {
        Err(error) => ListPostsResponse {
            status: Some(map_domain_error(error)),
            posts: Vec::new(),
        },
        Ok(dtos) => {
            let mut posts: Vec<WirePost> = Vec::new();
            let mut at: usize = 0;
            while at < dtos.len()
                invariant
                    at <= dtos@.len(),
                    posts@.len() == at,
                    forall|i: int| 0 <= i < at ==> is_wire_form(#[trigger] posts@[i], dtos@[i]),
                decreases dtos@.len() - at,
            {
                posts.push(wire_post(&dtos[at]));
                at += 1;
            }
            ListPostsResponse { status: success("Posts retrieved successfully"), posts }
        },
    }
}

} // verus!

//! The REST interface without its transport: who may call, what is turned
//! away, and the wire form of what the use cases return.

use vstd::prelude::*;
use vstd::string::*;
use crate::api::rest::{PostResponse, TokenResponse};
use crate::bindings::clock::{format_rfc3339, rfc3339_text};
use crate::bindings::ids::{format_uuid, parse_uuid, parsed_uuid, uuid_text};
use crate::server::auth_service::{carried_by, AuthService, Claims};
use crate::server::domain::User;
use crate::server::dto::{PostDto, TokenDto};
use crate::server::presentation::error::{ApiError, ApiErrorView};

verus! {

/// The user that a request was authenticated as.
#[derive(Debug, PartialEq, Eq)]
pub struct AuthenticatedUser {
    pub user_id: u128,
    pub username: String,
}

impl Clone for AuthenticatedUser {
    fn clone(&self) -> (copy: Self)
        ensures
            copy.user_id == self.user_id,
            copy.username@ == self.username@,
    {
        AuthenticatedUser { user_id: self.user_id, username: self.username.clone() }
    }
}

/// Why a bearer token is not let through.
#[derive(Debug, Clone, Copy, PartialEq, Eq, Structural)]
pub enum TokenRefusal {
    /// No service is at hand to check tokens.
    ServiceMissing,
    /// The token does not pass the check.
    Invalid,
    /// The token names no user.
    Malformed,
}

impl TokenRefusal {
    /// The message of the refusal.
    pub open spec fn text(self) -> Seq<char> {
        match self {
            TokenRefusal::ServiceMissing => "Internal server error"@,
            TokenRefusal::Invalid => "Invalid or expired token"@,
            TokenRefusal::Malformed => "Invalid token format"@,
        }
    }

    /// The message of the refusal.
    pub fn message(&self) -> (text: String)
        ensures
            text@ == self.text(),
    {
        match self {
            TokenRefusal::ServiceMissing => String::from_str("Internal server error"),
            TokenRefusal::Invalid => String::from_str("Invalid or expired token"),
            TokenRefusal::Malformed => String::from_str("Invalid token format"),
        }
    }
}

/// Whether `result` is what the outcome of a token's check comes to: a
/// token that did not pass is refused; one that passed must name its user
/// by an identifier.
pub open spec fn names_user(
    verified: Option<Claims>,
    result: Result<AuthenticatedUser, TokenRefusal>,
) -> bool {
    match verified {
        None => result == Err::<AuthenticatedUser, TokenRefusal>(TokenRefusal::Invalid),
        Some(claims) => match parsed_uuid(claims.sub@) {
            Err(_) => result == Err::<AuthenticatedUser, TokenRefusal>(TokenRefusal::Malformed),
            Ok(user_id) => {
                &&& result matches Ok(user)
                &&& user.user_id == user_id
                &&& user.username@ == claims.user_name@
            },
        },
    }
}

/// The user behind a token, given the outcome of the token's check.
pub fn user_of(verified: Option<Claims>) -> (result: Result<
    AuthenticatedUser,
    TokenRefusal,
>)
    ensures
        names_user(verified, result),
{
    match verified {
        None => Err(TokenRefusal::Invalid),
        Some(claims) => match parse_uuid(claims.sub.as_str()) {
            Err(_) => Err(TokenRefusal::Malformed),
            Ok(user_id) => Ok(AuthenticatedUser { user_id, username: claims.user_name }),
        },
    }
}

/// Checks the bearer token of a request and names the user behind it.
///
/// Without a service every token is refused. A token that passes the check
/// must name its user by an identifier; the user returned is the one the
/// token carries.
pub fn jwt_validator(auth_service: Option<&AuthService>, token: &str) -> (result: Result<
    AuthenticatedUser,
    TokenRefusal,
>)
    ensures
        auth_service is None ==> result == Err::<AuthenticatedUser, TokenRefusal>(
            TokenRefusal::ServiceMissing,
        ),
        auth_service is Some ==> exists|verified: Option<Claims>|
            {
                &&& #[trigger] names_user(verified, result)
                &&& verified matches Some(claims) ==> carried_by(claims, token@)
            },
{
    let service = match auth_service {
        Some(service) => service,
        None => return Err(TokenRefusal::ServiceMissing),
    };
    let verified = service.verify_token(token);
    let ghost outcome = verified;
    let result = user_of(verified);
    assert(names_user(outcome, result));
    result
}

/// The user of a request that must be authenticated.
pub fn require_user(user: Option<AuthenticatedUser>) -> (result: Result<
    AuthenticatedUser,
    ApiError,
>)
    ensures
        match user {
            Some(given) => result == Ok::<AuthenticatedUser, ApiError>(given),
            None => result matches Err(error) && error@ == ApiErrorView::Unauthorized(
                "Authentication required"@,
            ),
        },
{
    match user {
        Some(given) => Ok(given),
        None => Err(ApiError::unauthorized(String::from_str("Authentication required"))),
    }
}

/// The identifier of a post, read from the path of a request.
pub fn parse_post_id(text: &str) -> (result: Result<u128, ApiError>)
    ensures
        match parsed_uuid(text@) {
            Ok(id) => result == Ok::<u128, ApiError>(id),
            Err(_) => result matches Err(error) && error@ == ApiErrorView::BadRequest(
                "Invalid UUID format"@,
            ),
        },
{
    match parse_uuid(text) {
        Ok(id) => Ok(id),
        Err(_) => Err(ApiError::bad_request(String::from_str("Invalid UUID format"))),
    }
}

/// What a user may do to a post of their own.
#[derive(Debug, Clone, Copy, PartialEq, Eq, Structural)]
pub enum Change {
    Update,
    Delete,
}

impl Change {
    /// The message for a user who reaches for another user's post.
    pub open spec fn refusal(self) -> Seq<char> {
        match self {
            Change::Update => "You can only update your own posts"@,
            Change::Delete => "You can only delete your own posts"@,
        }
    }
}

/// Lets the author of a post change it, and nobody else.
pub fn check_author(author_id: u128, user_id: u128, change: Change) -> (result: Result<
    (),
    ApiError,
>)
    ensures
        author_id == user_id ==> result is Ok,
        author_id != user_id ==> (result matches Err(error) && error@ == ApiErrorView::Forbidden(
            change.refusal(),
        )),
{
    if author_id == user_id {
        return Ok(());
    }
    match change {
        Change::Update => Err(
            ApiError::forbidden(String::from_str("You can only update your own posts")),
        ),
        Change::Delete => Err(
            ApiError::forbidden(String::from_str("You can only delete your own posts")),
        ),
    }
}

/// What a registration is answered with.
#[derive(Debug, PartialEq, Eq)]
pub struct RegisteredUser {
    /// Identifier of the user, in the hyphenated form.
    pub id: String,
    pub username: String,
    pub email: String,
    /// Instant of creation, in the RFC 3339 format.
    pub created_at: String,
}

/// The answer to a registration. There is none where the calendar has no
/// date for the instant of creation.
pub fn registered_user(user: &User) -> (answer: Option<RegisteredUser>)
    ensures
        match rfc3339_text(user.created_at.seconds, user.created_at.nanos) {
            None => answer is None,
            Some(created_at) => {
                &&& answer matches Some(registered)
                &&& registered.id@ == uuid_text(user.id)
                &&& registered.username@ == user.username@
                &&& registered.email@ == user.email@
                &&& registered.created_at@ == created_at
            },
        },
{
    let created_at = format_rfc3339(user.created_at.seconds, user.created_at.nanos)?;
    Some(
        RegisteredUser {
            id: format_uuid(user.id),
            username: user.username.clone(),
            email: user.email.clone(),
            created_at,
        },
    )
}

/// The wire form of a pair of tokens.
pub fn token_response(dto: TokenDto) -> (response: TokenResponse)
    ensures
        response == (TokenResponse {
            access_token: dto.access_token,
            refresh_token: dto.refresh_token,
            expires_in: dto.expires_in,
        }),
{
    TokenResponse {
        access_token: dto.access_token,
        refresh_token: dto.refresh_token,
        expires_in: dto.expires_in,
    }
}

/// Whether `response` is the wire form of `dto`.
pub open spec fn is_wire_form(response: PostResponse, dto: PostDto) -> bool {
    &&& response.uuid@ == uuid_text(dto.uuid)
    &&& response.title@ == dto.title@
    &&& response.content@ == dto.content@
    &&& response.author_id@ == uuid_text(dto.author_id)
    &&& rfc3339_text(dto.created_at.seconds, dto.created_at.nanos) == Some(response.created_at@)
    &&& rfc3339_text(dto.updated_at.seconds, dto.updated_at.nanos) == Some(response.updated_at@)
}

/// The wire form of a post. There is none where the calendar has no date
/// for one of its instants.
pub fn post_response(dto: &PostDto) -> (response: Option<PostResponse>)
    ensures
        match response {
            Some(wire) => is_wire_form(wire, *dto),
            None => !dto.created_at.on_calendar() || !dto.updated_at.on_calendar(),
        },
        dto.created_at.on_calendar() && dto.updated_at.on_calendar() ==> response is Some,
{
    let created_at = format_rfc3339(dto.created_at.seconds, dto.created_at.nanos)?;
    let updated_at = format_rfc3339(dto.updated_at.seconds, dto.updated_at.nanos)?;
    Some(
        PostResponse {
            uuid: format_uuid(dto.uuid),
            title: dto.title.clone(),
            content: dto.content.clone(),
            author_id: format_uuid(dto.author_id),
            created_at,
            updated_at,
        },
    )
}

} // verus!

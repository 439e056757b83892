//! Messages of the gRPC service.

use vstd::prelude::*;

verus! {

/// Outcome class of a call.
#[derive(Debug, Clone, Copy, PartialEq, Eq, Structural)]
pub enum Status {
    Success,
    Unauthorized,
    InvalidRequest,
    InternalError,
}

/// Outcome of a call: its class and an optional explanation.
#[derive(Debug, PartialEq, Eq)]
pub struct Response {
    pub code: Status,
    pub details: Option<String>,
}

/// An instant as the wire carries it.
#[derive(Debug, Clone, Copy, PartialEq, Eq, Structural)]
pub struct Timestamp {
    pub seconds: i64,
    pub nanos: i32,
}

/// The tokens handed out by a login or a refresh.
#[derive(Debug, PartialEq, Eq)]
pub struct JwtContainer {
    pub access_token: String,
    pub refresh_token: String,
    /// Instant at which the access token expires.
    pub expires_in: Option<Timestamp>,
}

/// A post.
#[derive(Debug, PartialEq, Eq)]
pub struct Post {
    pub id: String,
    pub title: String,
    pub data: String,
    pub created_ts: Option<Timestamp>,
    pub last_updated_ts: Option<Timestamp>,
}

#[derive(Debug, PartialEq, Eq)]
pub struct RegisterRequest {
    pub login: String,
    pub email: String,
    pub password: String,
}

#[derive(Debug, PartialEq, Eq)]
pub struct RegisterResponse {
    pub status: Option<Response>,
}

#[derive(Debug, PartialEq, Eq)]
pub struct LoginRequest {
    pub email_or_login: String,
    pub password: String,
}

#[derive(Debug, PartialEq, Eq)]
pub struct LoginResponse {
    pub status: Option<Response>,
    pub token: Option<JwtContainer>,
}

#[derive(Debug, PartialEq, Eq)]
pub struct RefreshTokenRequest {
    pub refresh_token: String,
}

#[derive(Debug, PartialEq, Eq)]
pub struct RefreshTokenResponse {
    pub status: Option<Response>,
    pub token: Option<JwtContainer>,
}

#[derive(Debug, PartialEq, Eq)]
pub struct CreatePostRequest {
    pub title: String,
    pub data: String,
}

#[derive(Debug, PartialEq, Eq)]
pub struct GetPostRequest {
    pub id: String,
}

#[derive(Debug, PartialEq, Eq)]
pub struct UpdatePostRequest {
    pub post: Option<Post>,
}

#[derive(Debug, PartialEq, Eq)]
pub struct DeletePostRequest {
    pub post_id: String,
}

#[derive(Debug, PartialEq, Eq)]
pub struct ListPostsRequest {
    pub page_count: i32,
    pub page_size: i32,
}

/// Answer to the calls that return one post.
#[derive(Debug, PartialEq, Eq)]
pub struct PostResponse {
    pub response: Option<Response>,
    pub post: Option<Post>,
}

#[derive(Debug, PartialEq, Eq)]
pub struct DeletePostResponse {
    pub status: Option<Response>,
}

#[derive(Debug, PartialEq, Eq)]
pub struct ListPostsResponse {
    pub status: Option<Response>,
    pub posts: Vec<Post>,
}

} // verus!

//! Bodies of the REST requests and responses, as they stand in JSON.

use vstd::prelude::*;

verus! {

/// Request to register a new user.
#[derive(Debug, PartialEq, Eq)]
pub struct RegisterRequest {
    /// Unique user name.
    pub username: String,
    /// Password; the server stores a hash of it.
    pub password: String,
    /// Unique e-mail address.
    pub email: String,
}

/// Request to log in.
#[derive(Debug, PartialEq, Eq)]
pub struct LoginRequest {
    /// User name or e-mail address.
    pub username: String,
    pub password: String,
}

/// Request for a new access token in exchange for a refresh token.
#[derive(Debug, PartialEq, Eq)]
pub struct RefreshTokenRequest {
    pub refresh_token: String,
}

/// The tokens returned by a login or a refresh.
#[derive(Debug, PartialEq, Eq)]
pub struct TokenResponse {
    /// JWT access token that authenticates requests.
    pub access_token: String,
    /// JWT refresh token that buys the next access token.
    pub refresh_token: String,
    /// Lifetime of the access token in seconds.
    pub expires_in: i64,
}

/// Request to create a post.
#[derive(Debug, PartialEq, Eq)]
pub struct CreatePostRequest {
    pub title: String,
    pub content: String,
}

/// Request to change a post.
#[derive(Debug, PartialEq, Eq)]
pub struct UpdatePostRequest {
    pub title: String,
    pub content: String,
}

/// A post as the server returns it.
#[derive(Debug, PartialEq, Eq)]
pub struct PostResponse {
    /// Identifier of the post, in the hyphenated form.
    pub uuid: String,
    pub title: String,
    pub content: String,
    /// Identifier of the author, in the hyphenated form.
    pub author_id: String,
    /// Instant of creation, in the RFC 3339 format.
    pub created_at: String,
    /// Instant of the last change, in the RFC 3339 format.
    pub updated_at: String,
}

} // verus!

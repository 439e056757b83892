//! Values the client hands to its callers.

use vstd::prelude::*;
use crate::time::UtcTime;

verus! {

/// A blog post as the client sees it.
#[derive(Debug, PartialEq, Eq)]
pub struct Post {
    /// Value of the post's unique identifier.
    pub id: u128,
    pub title: String,
    pub content: String,
    /// Instant of creation.
    pub created_at: UtcTime,
    /// Instant of the last change.
    pub updated_at: UtcTime,
}

/// A user as the client sees it.
#[derive(Debug, PartialEq, Eq)]
pub struct User {
    /// Value of the user's unique identifier.
    pub id: u128,
    pub username: String,
}

/// The pair of tokens that authenticates a client. The pair is stored and
/// replaced as a whole.
#[derive(Debug, PartialEq, Eq)]
pub struct AuthData {
    /// JWT access token.
    pub access_token: String,
    /// JWT refresh token.
    pub refresh_token: String,
}

/// The mathematical value of an [`AuthData`].
pub struct AuthDataView {
    pub access_token: Seq<char>,
    pub refresh_token: Seq<char>,
}

impl View for AuthData {
    type V = AuthDataView;

    open spec fn view(&self) -> AuthDataView {
        AuthDataView { access_token: self.access_token@, refresh_token: self.refresh_token@ }
    }
}

impl Clone for AuthData {
    fn clone(&self) -> (copy: Self)
        ensures
            copy@ == self@,
    {
        AuthData {
            access_token: self.access_token.clone(),
            refresh_token: self.refresh_token.clone(),
        }
    }
}

} // verus!

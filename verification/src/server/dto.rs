//! Values that cross the boundary of the use cases.

use vstd::prelude::*;
use crate::server::domain::Post;
use crate::time::UtcTime;

verus! {

#[derive(Debug, PartialEq, Eq)]
pub struct RegisterDto {
    pub username: String,
    pub password: String,
    pub email: String,
}

#[derive(Debug, PartialEq, Eq)]
pub struct LoginDto {
    pub username: String,
    pub password: String,
}

#[derive(Debug, PartialEq, Eq)]
pub struct TokenDto {
    pub access_token: String,
    pub refresh_token: String,
    /// Lifetime reported for the access token, in seconds.
    pub expires_in: i64,
}

#[derive(Debug, PartialEq, Eq)]
pub struct UserInfoDto {
    pub user_id: String,
    pub username: String,
    pub email: String,
}

#[derive(Debug, PartialEq, Eq)]
pub struct CreatePostDto {
    pub title: String,
    pub content: String,
    pub author_id: u128,
}

#[derive(Debug, PartialEq, Eq)]
pub struct UpdatePostDto {
    pub uuid: u128,
    pub title: String,
    pub content: String,
}

#[derive(Debug, PartialEq, Eq)]
pub struct PostDto {
    pub uuid: u128,
    pub title: String,
    pub content: String,
    pub author_id: u128,
    pub created_at: UtcTime,
    pub updated_at: UtcTime,
}

impl PostDto {
    /// The post as it leaves the use cases: every field carried over.
    pub fn from_entity(post: Post) -> (dto: Self)
        ensures
            dto == (PostDto {
                uuid: post.uuid,
                title: post.title,
                content: post.content,
                author_id: post.author_id,
                created_at: post.created_at,
                updated_at: post.updated_at,
            }),
    {
        PostDto {
            uuid: post.uuid,
            title: post.title,
            content: post.content,
            author_id: post.author_id,
            created_at: post.created_at,
            updated_at: post.updated_at,
        }
    }
}

} // verus!

//! The stored records and the values that create or change them.
//!
//! Identifiers and creation times are assigned by the store. A creation time
//! is held as microseconds since the Unix epoch.

use vstd::prelude::*;

verus! {

/// A company of the directory.
#[derive(Debug, Clone, PartialEq, Eq)]
pub struct Company {
    pub id: i64,
    pub created_at: i64,
    pub name: String,
}

/// A position of the directory.
#[derive(Debug, Clone, PartialEq, Eq)]
pub struct Position {
    pub id: i64,
    pub created_at: i64,
    pub name: String,
}

/// Binds one position to one company; a user may reference it.
#[derive(Debug, Clone, PartialEq, Eq)]
pub struct CompanyPosition {
    pub id: i64,
    pub created_at: i64,
    pub position_id: i64,
    pub company_id: i64,
}

/// A directed edge: `following_user_id` follows `followed_user_id`.
#[derive(Debug, Clone, PartialEq, Eq)]
pub struct Follow {
    pub id: i64,
    pub created_at: i64,
    pub following_user_id: i64,
    pub followed_user_id: i64,
}

/// A post, written by the user `user_id`.
#[derive(Debug, Clone, PartialEq, Eq)]
pub struct Post {
    pub id: i64,
    pub created_at: i64,
    pub body: String,
    pub user_id: i64,
}

/// An account. Email and username are each unique over all users.
#[derive(Debug, Clone, PartialEq, Eq)]
pub struct User {
    pub id: i64,
    pub created_at: i64,
    pub name: String,
    pub email: String,
    pub username: String,
    pub profile_picture: Option<String>,
    pub password: String,
    pub company_position_id: Option<i64>,
    pub role: i64,
}

/// The client-supplied fields of an account about to be inserted.
#[derive(Debug, Clone, PartialEq, Eq)]
pub struct NewUser {
    pub name: String,
    pub email: String,
    pub username: String,
    pub profile_picture: Option<String>,
    pub password: String,
}

/// A sparse change to an account: only the fields that are present are set.
#[derive(Debug, Clone, PartialEq, Eq)]
pub struct UserPatch {
    pub email: Option<String>,
    pub username: Option<String>,
    pub password: Option<String>,
}

/// A post together with its author's username and display name.
#[derive(Debug, Clone, PartialEq, Eq)]
pub struct PostView {
    pub post: Post,
    pub username: String,
    pub name: String,
}

/// One row of the company listing: a company/position binding by name.
#[derive(Debug, Clone, PartialEq, Eq)]
pub struct CompanyRow {
    pub id: i64,
    pub company_name: String,
    pub position_name: String,
}

/// The account `u` after `p` is applied: the fields that `p` holds replace
/// those of `u`, every other field is kept.
pub open spec fn patched(u: User, p: UserPatch) -> User {
    User {
        email: match p.email {
            Some(e) => e,
            None => u.email,
        },
        username: match p.username {
            Some(n) => n,
            None => u.username,
        },
        password: match p.password {
            Some(w) => w,
            None => u.password,
        },
        ..u
    }
}

/// The record that the store holds after inserting `n` under `id` at `at`:
/// no company position and the default role.
pub open spec fn inserted_user(n: NewUser, id: i64, at: i64) -> User {
    User {
        id,
        created_at: at,
        name: n.name,
        email: n.email,
        username: n.username,
        profile_picture: n.profile_picture,
        password: n.password,
        company_position_id: None,
        role: 0,
    }
}

} // verus!

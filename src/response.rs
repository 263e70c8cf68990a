//! What a handler finishes with: a success notice with its data, or an error
//! with its code.

use crate::model::{Company, CompanyRow, NewUser, Position, Post, PostView, User};
use vstd::prelude::*;

verus! {

/// The error codes that handlers report.
#[derive(Debug, Clone, Copy, PartialEq, Eq, Structural)]
pub enum ErrorCode {
    DbConnectionFailed,
    InvalidQuery,
    QueryFailed,
    UserNotFound,
    CheckUserFailed,
    DuplicateEmail,
    DuplicateUsername,
    AddUserFailed,
    UpdateUserFailed,
    CompanyNotFound,
    CompanyIdRequired,
    CompanyNameRequired,
    CompanyAddFailed,
    CompanyUpdateFailed,
    PositionNotFound,
    PositionIdRequired,
    PositionNameRequired,
    PositionAddFailed,
    PositionUpdateFailed,
    PostNotFound,
    PostsNotFound,
    UserIdRequired,
    PostBodyRequired,
    AddPostFailed,
    UserFollowingSelf,
    UserUnfollowingSelf,
    FollowUserFailed,
    UnfollowUserFailed,
}

impl ErrorCode {
    /// The HTTP status that goes with the code: 400 for a rejected request,
    /// 404 for an absent entity, 500 for a failure of the store.
    pub open spec fn spec_status(self) -> u16 {
        match self {
            ErrorCode::InvalidQuery | ErrorCode::DuplicateEmail | ErrorCode::DuplicateUsername
            | ErrorCode::CompanyIdRequired | ErrorCode::CompanyNameRequired
            | ErrorCode::PositionIdRequired | ErrorCode::PositionNameRequired
            | ErrorCode::UserIdRequired | ErrorCode::PostBodyRequired
            | ErrorCode::UserFollowingSelf | ErrorCode::UserUnfollowingSelf => 400,
            ErrorCode::UserNotFound | ErrorCode::CompanyNotFound | ErrorCode::PositionNotFound
            | ErrorCode::PostNotFound | ErrorCode::PostsNotFound => 404,
            _ => 500,
        }
    }

    pub fn status(&self) -> (r: u16)
        ensures
            r == self.spec_status(),
    {
        match self {
            ErrorCode::InvalidQuery | ErrorCode::DuplicateEmail | ErrorCode::DuplicateUsername
            | ErrorCode::CompanyIdRequired | ErrorCode::CompanyNameRequired
            | ErrorCode::PositionIdRequired | ErrorCode::PositionNameRequired
            | ErrorCode::UserIdRequired | ErrorCode::PostBodyRequired
            | ErrorCode::UserFollowingSelf | ErrorCode::UserUnfollowingSelf => 400,
            ErrorCode::UserNotFound | ErrorCode::CompanyNotFound | ErrorCode::PositionNotFound
            | ErrorCode::PostNotFound | ErrorCode::PostsNotFound => 404,
            _ => 500,
        }
    }

    /// The code as it appears in an error body.
    pub fn as_str(&self) -> &'static str {
        match self {
            ErrorCode::DbConnectionFailed => "db_connection_failed",
            ErrorCode::InvalidQuery => "invalid_query",
            ErrorCode::QueryFailed => "query_failed",
            ErrorCode::UserNotFound => "user_not_found",
            ErrorCode::CheckUserFailed => "check_user_failed",
            ErrorCode::DuplicateEmail => "duplicate_email",
            ErrorCode::DuplicateUsername => "duplicate_username",
            ErrorCode::AddUserFailed => "add_user_failed",
            ErrorCode::UpdateUserFailed => "update_user_failed",
            ErrorCode::CompanyNotFound => "company_not_found",
            ErrorCode::CompanyIdRequired => "company_id_required",
            ErrorCode::CompanyNameRequired => "company_name_required",
            ErrorCode::CompanyAddFailed => "company_add_failed",
            ErrorCode::CompanyUpdateFailed => "company_update_failed",
            ErrorCode::PositionNotFound => "position_not_found",
            ErrorCode::PositionIdRequired => "position_id_required",
            ErrorCode::PositionNameRequired => "position_name_required",
            ErrorCode::PositionAddFailed => "position_add_failed",
            ErrorCode::PositionUpdateFailed => "position_update_failed",
            ErrorCode::PostNotFound => "post_not_found",
            ErrorCode::PostsNotFound => "posts_not_found",
            ErrorCode::UserIdRequired => "user_id_required",
            ErrorCode::PostBodyRequired => "post_body_required",
            ErrorCode::AddPostFailed => "add_post_failed",
            ErrorCode::UserFollowingSelf => "user_following_self",
            ErrorCode::UserUnfollowingSelf => "user_unfollowing_self",
            ErrorCode::FollowUserFailed => "follow_user_failed",
            ErrorCode::UnfollowUserFailed => "unfollow_user_failed",
        }
    }

    /// The human-readable sentence for the code.
    pub fn describe(&self) -> &'static str {
        match self {
            ErrorCode::DbConnectionFailed => "Failed to get db connection from pool",
            ErrorCode::InvalidQuery => "Invalid query",
            ErrorCode::QueryFailed => "Failed to run query",
            ErrorCode::UserNotFound => "User not found",
            ErrorCode::CheckUserFailed => "Failed to check existing user",
            ErrorCode::DuplicateEmail => "Duplicate email",
            ErrorCode::DuplicateUsername => "Duplicate username",
            ErrorCode::AddUserFailed => "Failed to add user",
            ErrorCode::UpdateUserFailed => "Failed to update user",
            ErrorCode::CompanyNotFound => "Company not found",
            ErrorCode::CompanyIdRequired => "Company id is required",
            ErrorCode::CompanyNameRequired => "Company name is required",
            ErrorCode::CompanyAddFailed => "Failed to add company",
            ErrorCode::CompanyUpdateFailed => "Failed to update company",
            ErrorCode::PositionNotFound => "Position not found",
            ErrorCode::PositionIdRequired => "Position id is required",
            ErrorCode::PositionNameRequired => "Position name is required",
            ErrorCode::PositionAddFailed => "Failed to add position",
            ErrorCode::PositionUpdateFailed => "Failed to update position",
            ErrorCode::PostNotFound => "Post not found",
            ErrorCode::PostsNotFound => "Posts not found",
            ErrorCode::UserIdRequired => "User id is required",
            ErrorCode::PostBodyRequired => "Post body is required",
            ErrorCode::AddPostFailed => "Failed to add post",
            ErrorCode::UserFollowingSelf => "User cannot follow themselves",
            ErrorCode::UserUnfollowingSelf => "User cannot unfollow themselves",
            ErrorCode::FollowUserFailed => "Failed to follow user",
            ErrorCode::UnfollowUserFailed => "Failed to unfollow user",
        }
    }
}

/// A failed request: its code, and the store's own words where the store
/// reported the failure.
#[derive(Debug, Clone, PartialEq, Eq)]
pub struct ErrorResponse {
    pub error_code: ErrorCode,
    pub detail: Option<String>,
}

impl ErrorResponse {
    pub fn new(error_code: ErrorCode, detail: Option<String>) -> (r: Self)
        ensures
            r == (ErrorResponse { error_code, detail }),
    {
        ErrorResponse { error_code, detail }
    }

    pub fn status_code(&self) -> (r: u16)
        ensures
            r == self.error_code.spec_status(),
    {
        self.error_code.status()
    }

    /// The sentence of the code, followed by the store's words if any.
    pub fn message(&self) -> (r: String)
        ensures
            self.detail matches Some(d) ==> r@.len() >= d@.len() && r@.subrange(
                r@.len() - d@.len(),
                r@.len() as int,
            ) == d@,
    {
        let base = String::from_str(self.error_code.describe());
        match &self.detail {
            None => base,
            Some(d) => {
                let r = base.concat(": ").concat(d.as_str());
                proof {
                    assert(r@.subrange(r@.len() - d@.len(), r@.len() as int) =~= d@);
                }
                r
            },
        }
    }
}

/// What a successful request reports.
#[derive(Debug, Clone, Copy, PartialEq, Eq, Structural)]
pub enum Notice {
    UserFound,
    UserAdded,
    UserUpdated,
    CompanyFound,
    CompaniesFound,
    CompanyAdded,
    CompanyUpdated,
    PositionFound,
    PositionAdded,
    PositionUpdated,
    PostFound,
    PostsFound,
    PostAdded,
    Followed,
    Unfollowed,
}

impl Notice {
    /// The human-readable sentence for the notice.
    pub fn describe(&self) -> &'static str {
        match self {
            Notice::UserFound => "User found",
            Notice::UserAdded => "User added",
            Notice::UserUpdated => "User updated",
            Notice::CompanyFound => "Company found",
            Notice::CompaniesFound => "Companies found",
            Notice::CompanyAdded => "Company added",
            Notice::CompanyUpdated => "Company updated",
            Notice::PositionFound => "Position found",
            Notice::PositionAdded => "Position added",
            Notice::PositionUpdated => "Position updated",
            Notice::PostFound => "Post found",
            Notice::PostsFound => "Posts found",
            Notice::PostAdded => "Post added",
            Notice::Followed => "User followed",
            Notice::Unfollowed => "User unfollowed",
        }
    }
}

/// The data that a successful request carries.
#[derive(Debug, Clone, PartialEq, Eq)]
pub enum Payload {
    Empty,
    /// An account with the number of its followers.
    UserWithFollowers { user: User, follow_count: i64 },
    /// The client-supplied fields of an account that was inserted.
    NewUser(NewUser),
    Company(Company),
    Position(Position),
    CompanyListing(Vec<CompanyRow>),
    /// Posts that all have one author.
    AuthoredPosts { posts: Vec<Post>, username: String, name: String },
    /// Posts, each with its own author.
    Posts(Vec<PostView>),
}

/// A successful request: its notice and its data.
#[derive(Debug, Clone, PartialEq, Eq)]
pub struct OkResponse {
    pub notice: Notice,
    pub data: Payload,
}

impl OkResponse {
    pub fn new(notice: Notice, data: Payload) -> (r: Self)
        ensures
            r == (OkResponse { notice, data }),
    {
        OkResponse { notice, data }
    }
}

} // verus!

//! The exchange between a handler and the store that serves it.
//!
//! A handler yields a [`Step`]: either a [`Query`] to perform, or the final
//! outcome. The caller performs the query and resumes the handler with the
//! [`Reply`].

use crate::model::{Company, CompanyRow, NewUser, Position, Post, PostView, User, UserPatch};
use crate::response::{ErrorCode, ErrorResponse, Notice, OkResponse, Payload};
use vstd::prelude::*;

verus! {

/// The two tables of the directory, which share their operations.
#[derive(Debug, Clone, Copy, PartialEq, Eq, Structural)]
pub enum Directory {
    Company,
    Position,
}

/// One storage operation.
#[derive(Debug, Clone, PartialEq, Eq)]
pub enum Query {
    /// Take a connection from the pool.
    Connect,
    UserById(i64),
    UserByUsername(String),
    UserByEmail(String),
    /// The first account whose email or whose username matches.
    UserByEmailOrUsername(String, String),
    /// The number of follow edges towards the account.
    CountFollowers(i64),
    InsertUser(NewUser),
    /// Apply the patch to every account with the given email.
    UpdateUser(String, UserPatch),
    /// Insert the edge `(following, followed)`.
    InsertFollow(i64, i64),
    /// Delete every edge `(following, followed)`.
    DeleteFollows(i64, i64),
    PostById(i64),
    /// The posts of an author, with a limit and an offset.
    PostsByUser(i64, i64, i64),
    /// All posts joined with their authors, with a limit and an offset.
    PostsWithAuthors(i64, i64),
    /// Insert a post for an author.
    InsertPost(i64, String),
    EntryById(Directory, i64),
    InsertEntry(Directory, String),
    /// Set the name of the entry with the given id.
    RenameEntry(Directory, i64, String),
    /// Every company/position binding, joined with both names.
    CompanyListing,
}

/// The store's answer to a [`Query`].
#[derive(Debug, Clone, PartialEq, Eq)]
pub enum Reply {
    /// The connection was taken, or the write was carried out.
    Done,
    /// The store reported a failure, in its own words.
    Failed(String),
    User(Option<User>),
    Count(i64),
    Posts(Vec<Post>),
    AuthoredPosts(Vec<PostView>),
    Company(Option<Company>),
    Position(Option<Position>),
    Listing(Vec<CompanyRow>),
}

/// What a handler asks for next.
#[derive(Debug, PartialEq, Eq)]
pub enum Step {
    Run(Query),
    Finish(Result<OkResponse, ErrorResponse>),
}

/// A handler's state machine, as seen by proofs: the state and step that
/// follow a reply.
pub trait Flow: Sized {
    spec fn next(self, reply: Reply) -> (Self, Step);
}

/// The store's own words in a reply, if it reported a failure.
pub open spec fn detail_of(reply: Reply) -> Option<String> {
    match reply {
        Reply::Failed(d) => Some(d),
        _ => None,
    }
}

/// Finishing with the error `code`.
pub open spec fn fail(code: ErrorCode, detail: Option<String>) -> Step {
    Step::Finish(Err(ErrorResponse { error_code: code, detail }))
}

/// Finishing with success.
pub open spec fn succeed(notice: Notice, data: Payload) -> Step {
    Step::Finish(Ok(OkResponse { notice, data }))
}

/// Whether `step` finishes with the error `code`.
pub open spec fn fails_with(step: Step, code: ErrorCode) -> bool {
    step matches Step::Finish(Err(e)) && e.error_code == code
}

pub fn take_detail(reply: Reply) -> (r: Option<String>)
    ensures
        r == detail_of(reply),
{
    match reply {
        Reply::Failed(d) => Some(d),
        _ => None,
    }
}

pub fn finish_err(code: ErrorCode, detail: Option<String>) -> (r: Step)
    ensures
        r == fail(code, detail),
{
    Step::Finish(Err(ErrorResponse::new(code, detail)))
}

pub fn finish_ok(notice: Notice, data: Payload) -> (r: Step)
    ensures
        r == succeed(notice, data),
{
    Step::Finish(Ok(OkResponse::new(notice, data)))
}

} // verus!

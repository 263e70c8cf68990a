//! Post handlers: reading posts with their authors, and writing a post.

use crate::model::{Post, PostView, User};
use crate::protocol::{
    detail_of, fail, finish_err, finish_ok, succeed, take_detail, Flow, Query, Reply, Step,
};
use crate::response::{ErrorCode, Notice, Payload};
use vstd::prelude::*;

verus! {

/// How many posts a listing returns when no limit is given.
pub const DEFAULT_LIMIT: i64 = 20;

/// A read of posts: one post by id, the posts of one author by username, or
/// all posts.
#[derive(Debug)]
pub enum GetPostsFlow {
    Connecting { id: Option<i64>, username: Option<String>, limit: i64, offset: i64 },
    FindingPost,
    FindingAuthor(Vec<Post>),
    FindingUser { limit: i64, offset: i64 },
    ListingUser(User),
    ListingAll,
    Closed,
}

impl Flow for GetPostsFlow {
    /// Take a connection. With an id: find the post, then its author. With a
    /// username: find the author, then a page of their posts. With neither:
    /// a page of all posts joined with their authors, where an empty page is
    /// `posts_not_found`.
    open spec fn next(self, reply: Reply) -> (GetPostsFlow, Step) {
        match self {
            GetPostsFlow::Connecting { id, username, limit, offset } => if !(reply is Done) {
                (GetPostsFlow::Closed, fail(ErrorCode::DbConnectionFailed, detail_of(reply)))
            } else if id is Some {
                (GetPostsFlow::FindingPost, Step::Run(Query::PostById(id->0)))
            } else if username is Some {
                (
                    GetPostsFlow::FindingUser { limit, offset },
                    Step::Run(Query::UserByUsername(username->0)),
                )
            } else {
                (GetPostsFlow::ListingAll, Step::Run(Query::PostsWithAuthors(limit, offset)))
            },
            GetPostsFlow::FindingPost => match reply {
                Reply::Posts(ps) => if ps@.len() == 0 {
                    (GetPostsFlow::Closed, fail(ErrorCode::PostNotFound, None))
                } else {
                    (GetPostsFlow::FindingAuthor(ps), Step::Run(Query::UserById(ps@[0].user_id)))
                },
                _ => (GetPostsFlow::Closed, fail(ErrorCode::QueryFailed, detail_of(reply))),
            },
            GetPostsFlow::FindingAuthor(ps) => match reply {
                Reply::User(Some(u)) => (
                    GetPostsFlow::Closed,
                    succeed(
                        Notice::PostFound,
                        Payload::AuthoredPosts { posts: ps, username: u.username, name: u.name },
                    ),
                ),
                _ => (GetPostsFlow::Closed, fail(ErrorCode::UserNotFound, None)),
            },
            GetPostsFlow::FindingUser { limit, offset } => match reply {
                Reply::User(Some(u)) => (
                    GetPostsFlow::ListingUser(u),
                    Step::Run(Query::PostsByUser(u.id, limit, offset)),
                ),
                _ => (GetPostsFlow::Closed, fail(ErrorCode::UserNotFound, None)),
            },
            GetPostsFlow::ListingUser(u) => match reply {
                Reply::Posts(ps) => (
                    GetPostsFlow::Closed,
                    succeed(
                        Notice::PostsFound,
                        Payload::AuthoredPosts { posts: ps, username: u.username, name: u.name },
                    ),
                ),
                _ => (GetPostsFlow::Closed, fail(ErrorCode::PostsNotFound, None)),
            },
            GetPostsFlow::ListingAll => match reply {
                Reply::AuthoredPosts(views) => if views@.len() == 0 {
                    (GetPostsFlow::Closed, fail(ErrorCode::PostsNotFound, None))
                } else {
                    (GetPostsFlow::Closed, succeed(Notice::PostsFound, Payload::Posts(views)))
                },
                _ => (GetPostsFlow::Closed, fail(ErrorCode::InvalidQuery, None)),
            },
            GetPostsFlow::Closed => (GetPostsFlow::Closed, fail(ErrorCode::QueryFailed, None)),
        }
    }
}

/// Starts a read of posts. The limit defaults to 20 and the offset to 0;
/// neither is checked, the store receives them as given.
pub fn get_posts(id: Option<i64>, username: Option<String>, limit: Option<i64>, offset: Option<i64>) -> (r: (GetPostsFlow, Step))
    ensures
        r.1 == Step::Run(Query::Connect),
        r.0 == (GetPostsFlow::Connecting {
            id,
            username,
            limit: match limit {
                Some(l) => l,
                None => DEFAULT_LIMIT,
            },
            offset: match offset {
                Some(o) => o,
                None => 0,
            },
        }),
{
    let limit = match limit {
        Some(l) => l,
        None => DEFAULT_LIMIT,
    };
    let offset = match offset {
        Some(o) => o,
        None => 0,
    };
    (GetPostsFlow::Connecting { id, username, limit, offset }, Step::Run(Query::Connect))
}

impl GetPostsFlow {
    /// Resumes the read with the store's reply to its last query.
    pub fn resume(self, reply: Reply) -> (r: (GetPostsFlow, Step))
        ensures
            r == self.next(reply),
    {
        match self {
            GetPostsFlow::Connecting { id, username, limit, offset } => {
                if !matches!(reply, Reply::Done) {
                    (GetPostsFlow::Closed, finish_err(ErrorCode::DbConnectionFailed, take_detail(reply)))
                } else if let Some(i) = id {
                    (GetPostsFlow::FindingPost, Step::Run(Query::PostById(i)))
                } else if let Some(name) = username {
                    (GetPostsFlow::FindingUser { limit, offset }, Step::Run(Query::UserByUsername(name)))
                } else {
                    (GetPostsFlow::ListingAll, Step::Run(Query::PostsWithAuthors(limit, offset)))
                }
            },
            GetPostsFlow::FindingPost => match reply {
                Reply::Posts(ps) => {
                    if ps.len() == 0 {
                        (GetPostsFlow::Closed, finish_err(ErrorCode::PostNotFound, None))
                    } else {
                        let author = ps[0].user_id;
                        (GetPostsFlow::FindingAuthor(ps), Step::Run(Query::UserById(author)))
                    }
                },
                _ => (GetPostsFlow::Closed, finish_err(ErrorCode::QueryFailed, take_detail(reply))),
            },
            GetPostsFlow::FindingAuthor(ps) => match reply {
                Reply::User(Some(u)) => (
                    GetPostsFlow::Closed,
                    finish_ok(
                        Notice::PostFound,
                        Payload::AuthoredPosts { posts: ps, username: u.username, name: u.name },
                    ),
                ),
                _ => (GetPostsFlow::Closed, finish_err(ErrorCode::UserNotFound, None)),
            },
            GetPostsFlow::FindingUser { limit, offset } => match reply {
                Reply::User(Some(u)) => {
                    let id = u.id;
                    (GetPostsFlow::ListingUser(u), Step::Run(Query::PostsByUser(id, limit, offset)))
                },
                _ => (GetPostsFlow::Closed, finish_err(ErrorCode::UserNotFound, None)),
            },
            GetPostsFlow::ListingUser(u) => match reply {
                Reply::Posts(ps) => (
                    GetPostsFlow::Closed,
                    finish_ok(
                        Notice::PostsFound,
                        Payload::AuthoredPosts { posts: ps, username: u.username, name: u.name },
                    ),
                ),
                _ => (GetPostsFlow::Closed, finish_err(ErrorCode::PostsNotFound, None)),
            },
            GetPostsFlow::ListingAll => match reply {
                Reply::AuthoredPosts(views) => {
                    if views.len() == 0 {
                        (GetPostsFlow::Closed, finish_err(ErrorCode::PostsNotFound, None))
                    } else {
                        (GetPostsFlow::Closed, finish_ok(Notice::PostsFound, Payload::Posts(views)))
                    }
                },
                _ => (GetPostsFlow::Closed, finish_err(ErrorCode::InvalidQuery, None)),
            },
            GetPostsFlow::Closed => (GetPostsFlow::Closed, finish_err(ErrorCode::QueryFailed, None)),
        }
    }
}

/// The writing of a post.
#[derive(Debug)]
pub enum AddPostFlow {
    Connecting { user_id: Option<i64>, body: Option<String> },
    FindingAuthor(String),
    Writing,
    Closed,
}

impl Flow for AddPostFlow {
    /// Take a connection, check that both fields are given, find the author,
    /// then insert the post under the author's id.
    open spec fn next(self, reply: Reply) -> (AddPostFlow, Step) {
        match self {
            AddPostFlow::Connecting { user_id, body } => if !(reply is Done) {
                (AddPostFlow::Closed, fail(ErrorCode::DbConnectionFailed, detail_of(reply)))
            } else if user_id is None {
                (AddPostFlow::Closed, fail(ErrorCode::UserIdRequired, None))
            } else if body is None {
                (AddPostFlow::Closed, fail(ErrorCode::PostBodyRequired, None))
            } else {
                (AddPostFlow::FindingAuthor(body->0), Step::Run(Query::UserById(user_id->0)))
            },
            AddPostFlow::FindingAuthor(body) => match reply {
                Reply::User(Some(u)) => (AddPostFlow::Writing, Step::Run(Query::InsertPost(u.id, body))),
                _ => (AddPostFlow::Closed, fail(ErrorCode::UserNotFound, None)),
            },
            AddPostFlow::Writing => if reply is Done {
                (AddPostFlow::Closed, succeed(Notice::PostAdded, Payload::Empty))
            } else {
                (AddPostFlow::Closed, fail(ErrorCode::AddPostFailed, detail_of(reply)))
            },
            AddPostFlow::Closed => (AddPostFlow::Closed, fail(ErrorCode::QueryFailed, None)),
        }
    }
}

/// Starts writing a post with `body` by the account `user_id`.
pub fn add_post(user_id: Option<i64>, body: Option<String>) -> (r: (AddPostFlow, Step))
    ensures
        r == (AddPostFlow::Connecting { user_id, body }, Step::Run(Query::Connect)),
{
    (AddPostFlow::Connecting { user_id, body }, Step::Run(Query::Connect))
}

impl AddPostFlow {
    /// Resumes the write with the store's reply to its last query.
    pub fn resume(self, reply: Reply) -> (r: (AddPostFlow, Step))
        ensures
            r == self.next(reply),
    {
        match self {
            AddPostFlow::Connecting { user_id, body } => {
                if !matches!(reply, Reply::Done) {
                    (AddPostFlow::Closed, finish_err(ErrorCode::DbConnectionFailed, take_detail(reply)))
                } else {
                    match (user_id, body) {
                        (None, _) => (AddPostFlow::Closed, finish_err(ErrorCode::UserIdRequired, None)),
                        (Some(_), None) => (AddPostFlow::Closed, finish_err(ErrorCode::PostBodyRequired, None)),
                        (Some(uid), Some(text)) => (AddPostFlow::FindingAuthor(text), Step::Run(Query::UserById(uid))),
                    }
                }
            },
            AddPostFlow::FindingAuthor(body) => match reply {
                Reply::User(Some(u)) => (AddPostFlow::Writing, Step::Run(Query::InsertPost(u.id, body))),
                _ => (AddPostFlow::Closed, finish_err(ErrorCode::UserNotFound, None)),
            },
            AddPostFlow::Writing => {
                if let Reply::Done = reply {
                    (AddPostFlow::Closed, finish_ok(Notice::PostAdded, Payload::Empty))
                } else {
                    (AddPostFlow::Closed, finish_err(ErrorCode::AddPostFailed, take_detail(reply)))
                }
            },
            AddPostFlow::Closed => (AddPostFlow::Closed, finish_err(ErrorCode::QueryFailed, None)),
        }
    }
}

} // verus!

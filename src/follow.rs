//! Following and unfollowing: the only handlers that delete rows.

use crate::protocol::{
    detail_of, fail, finish_err, finish_ok, succeed, take_detail, Flow, Query, Reply, Step,
};
use crate::response::{ErrorCode, Notice, Payload};
use vstd::prelude::*;

verus! {

/// The body of a follow or unfollow request.
#[derive(Debug, Clone, Copy, PartialEq, Eq, Structural)]
pub struct FollowForm {
    pub user_id: i64,
    pub followed_user_id: i64,
}

#[derive(Debug, Clone, Copy, PartialEq, Eq, Structural)]
pub enum EdgeStage {
    Connecting,
    FindingFollower,
    FindingFollowed,
    Writing,
}

/// A follow (or, with `unfollowing`, an unfollow) request in progress.
#[derive(Debug, Clone, Copy, PartialEq, Eq, Structural)]
pub struct EdgeFlow {
    pub unfollowing: bool,
    pub form: FollowForm,
    pub stage: EdgeStage,
}

/// The first step of an edge request: a request on a single account is
/// refused before the store is touched.
pub open spec fn edge_start(unfollowing: bool, form: FollowForm) -> (EdgeFlow, Step) {
    let flow = EdgeFlow { unfollowing, form, stage: EdgeStage::Connecting };
    if form.user_id == form.followed_user_id {
        (flow, fail(self_code(unfollowing), None))
    } else {
        (flow, Step::Run(Query::Connect))
    }
}

pub open spec fn self_code(unfollowing: bool) -> ErrorCode {
    if unfollowing {
        ErrorCode::UserUnfollowingSelf
    } else {
        ErrorCode::UserFollowingSelf
    }
}

pub open spec fn write_code(unfollowing: bool) -> ErrorCode {
    if unfollowing {
        ErrorCode::UnfollowUserFailed
    } else {
        ErrorCode::FollowUserFailed
    }
}

impl Flow for EdgeFlow {
    /// Take a connection, find both accounts by id, then insert the edge
    /// (or delete every copy of it). A lookup that finds nothing, or fails,
    /// ends the request with `user_not_found`.
    open spec fn next(self, reply: Reply) -> (EdgeFlow, Step) {
        let form = self.form;
        match self.stage {
            EdgeStage::Connecting => if reply is Done {
                (
                    EdgeFlow { stage: EdgeStage::FindingFollower, ..self },
                    Step::Run(Query::UserById(form.user_id)),
                )
            } else {
                (self, fail(ErrorCode::DbConnectionFailed, detail_of(reply)))
            },
            EdgeStage::FindingFollower => if reply matches Reply::User(Some(_)) {
                (
                    EdgeFlow { stage: EdgeStage::FindingFollowed, ..self },
                    Step::Run(Query::UserById(form.followed_user_id)),
                )
            } else {
                (self, fail(ErrorCode::UserNotFound, None))
            },
            EdgeStage::FindingFollowed => if reply matches Reply::User(Some(_)) {
                (
                    EdgeFlow { stage: EdgeStage::Writing, ..self },
                    Step::Run(
                        if self.unfollowing {
                            Query::DeleteFollows(form.user_id, form.followed_user_id)
                        } else {
                            Query::InsertFollow(form.user_id, form.followed_user_id)
                        },
                    ),
                )
            } else {
                (self, fail(ErrorCode::UserNotFound, None))
            },
            EdgeStage::Writing => if reply is Done {
                (
                    self,
                    succeed(
                        if self.unfollowing {
                            Notice::Unfollowed
                        } else {
                            Notice::Followed
                        },
                        Payload::Empty,
                    ),
                )
            } else {
                (self, fail(write_code(self.unfollowing), detail_of(reply)))
            },
        }
    }
}

fn start_edge(unfollowing: bool, form: FollowForm) -> (r: (EdgeFlow, Step))
    ensures
        r == edge_start(unfollowing, form),
{
    let flow = EdgeFlow { unfollowing, form, stage: EdgeStage::Connecting };
    if form.user_id == form.followed_user_id {
        let code = if unfollowing {
            ErrorCode::UserUnfollowingSelf
        } else {
            ErrorCode::UserFollowingSelf
        };
        (flow, finish_err(code, None))
    } else {
        (flow, Step::Run(Query::Connect))
    }
}

/// Starts a request by `form.user_id` to follow `form.followed_user_id`.
pub fn follow(form: FollowForm) -> (r: (EdgeFlow, Step))
    ensures
        r == edge_start(false, form),
        form.user_id == form.followed_user_id ==> r.1 == fail(ErrorCode::UserFollowingSelf, None),
        form.user_id != form.followed_user_id ==> r.1 == Step::Run(Query::Connect),
{
    start_edge(false, form)
}

/// Starts a request by `form.user_id` to stop following `form.followed_user_id`.
pub fn unfollow(form: FollowForm) -> (r: (EdgeFlow, Step))
    ensures
        r == edge_start(true, form),
        form.user_id == form.followed_user_id ==> r.1 == fail(
            ErrorCode::UserUnfollowingSelf,
            None,
        ),
        form.user_id != form.followed_user_id ==> r.1 == Step::Run(Query::Connect),
{
    start_edge(true, form)
}

impl EdgeFlow {
    /// Resumes the request with the store's reply to its last query.
    pub fn resume(self, reply: Reply) -> (r: (EdgeFlow, Step))
        ensures
            r == self.next(reply),
    {
        let form = self.form;
        match self.stage {
            EdgeStage::Connecting => {
                if let Reply::Done = reply {
                    (
                        EdgeFlow { stage: EdgeStage::FindingFollower, ..self },
                        Step::Run(Query::UserById(form.user_id)),
                    )
                } else {
                    (self, finish_err(ErrorCode::DbConnectionFailed, take_detail(reply)))
                }
            },
            EdgeStage::FindingFollower => {
                if let Reply::User(Some(_)) = reply {
                    (
                        EdgeFlow { stage: EdgeStage::FindingFollowed, ..self },
                        Step::Run(Query::UserById(form.followed_user_id)),
                    )
                } else {
                    (self, finish_err(ErrorCode::UserNotFound, None))
                }
            },
            EdgeStage::FindingFollowed => {
                if let Reply::User(Some(_)) = reply {
                    let query = if self.unfollowing {
                        Query::DeleteFollows(form.user_id, form.followed_user_id)
                    } else {
                        Query::InsertFollow(form.user_id, form.followed_user_id)
                    };
                    (EdgeFlow { stage: EdgeStage::Writing, ..self }, Step::Run(query))
                } else {
                    (self, finish_err(ErrorCode::UserNotFound, None))
                }
            },
            EdgeStage::Writing => {
                if let Reply::Done = reply {
                    let notice = if self.unfollowing {
                        Notice::Unfollowed
                    } else {
                        Notice::Followed
                    };
                    (self, finish_ok(notice, Payload::Empty))
                } else {
                    let code = if self.unfollowing {
                        ErrorCode::UnfollowUserFailed
                    } else {
                        ErrorCode::FollowUserFailed
                    };
                    (self, finish_err(code, take_detail(reply)))
                }
            },
        }
    }
}

} // verus!

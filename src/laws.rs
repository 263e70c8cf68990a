//! What the handlers guarantee, proved by running them against the store of
//! [`crate::store`].

use crate::follow::{edge_start, self_code, EdgeFlow, EdgeStage, FollowForm};
use crate::directory::EditEntryFlow;
use crate::model::{inserted_user, patched, NewUser, PostView, User, UserPatch};
use crate::post::GetPostsFlow;
use crate::protocol::{fail, fails_with, succeed, Directory, Flow, Query, Reply, Step};
use crate::response::{ErrorCode, Notice, Payload};
use crate::store::{is_edge, run, Store};
use crate::user::{AddUserFlow, GetUserFlow, UpdateUserFlow};
use vstd::prelude::*;

verus! {

/// An account can neither follow nor unfollow itself: such a request ends
/// with its refusal before any query, whatever the store holds.
pub proof fn self_edge_refused(unfollowing: bool, form: FollowForm, s: Store, fuel: nat)
    requires
        form.user_id == form.followed_user_id,
    ensures
        edge_start(unfollowing, form).1 == fail(self_code(unfollowing), None),
        run(edge_start(unfollowing, form).0, edge_start(unfollowing, form).1, s, fuel) == (
            fail(self_code(unfollowing), None),
            s,
        ),
{
}

/// Following, when one of the two accounts does not exist, ends with
/// `user_not_found` (once a connection is had) and changes nothing.
pub proof fn follow_unknown_user(form: FollowForm, s: Store)
    requires
        form.user_id != form.followed_user_id,
        !s.has_user(form.user_id) || !s.has_user(form.followed_user_id),
    ensures
        ({
            let (end, s2) = run(edge_start(false, form).0, edge_start(false, form).1, s, 4);
            &&& s2 == s
            &&& s.pool_open ==> fails_with(end, ErrorCode::UserNotFound)
            &&& !s.pool_open ==> fails_with(end, ErrorCode::DbConnectionFailed)
        }),
{
    reveal_with_fuel(run, 5);
}

/// Unfollowing between two existing accounts succeeds, removes every edge
/// from the first to the second, and keeps every other row.
pub proof fn unfollow_removes_all(form: FollowForm, s: Store)
    requires
        s.pool_open,
        form.user_id != form.followed_user_id,
        s.has_user(form.user_id),
        s.has_user(form.followed_user_id),
    ensures
        ({
            let (a, b) = (form.user_id, form.followed_user_id);
            let (end, s2) = run(edge_start(true, form).0, edge_start(true, form).1, s, 4);
            &&& end == succeed(Notice::Unfollowed, Payload::Empty)
            &&& !s2.has_edge(a, b)
            &&& s2 == (Store { follows: s.follows.filter(|e| !is_edge(e, a, b)), ..s })
        }),
{
    reveal_with_fuel(run, 5);
    let (a, b) = (form.user_id, form.followed_user_id);
    s.follows.filter_lemma(|e| !is_edge(e, a, b));
}

/// Following keeps the accounts, the pool and the directory as they are.
pub proof fn follow_keeps_accounts(form: FollowForm, s: Store)
    ensures
        ({
            let s2 = run(edge_start(false, form).0, edge_start(false, form).1, s, 4).1;
            &&& s2.users == s.users
            &&& s2.pool_open == s.pool_open
        }),
{
    reveal_with_fuel(run, 5);
}

/// Following the same account twice and then unfollowing it once leaves no
/// edge between the two.
pub proof fn follow_twice_then_unfollow(form: FollowForm, s: Store)
    requires
        s.pool_open,
        form.user_id != form.followed_user_id,
        s.has_user(form.user_id),
        s.has_user(form.followed_user_id),
    ensures
        ({
            let (f, step) = edge_start(false, form);
            let (uf, ustep) = edge_start(true, form);
            let s1 = run(f, step, s, 4).1;
            let s2 = run(f, step, s1, 4).1;
            let s3 = run(uf, ustep, s2, 4).1;
            !s3.has_edge(form.user_id, form.followed_user_id)
        }),
{
    let (f, step) = edge_start(false, form);
    let s1 = run(f, step, s, 4).1;
    let s2 = run(f, step, s1, 4).1;
    follow_keeps_accounts(form, s);
    follow_keeps_accounts(form, s1);
    unfollow_removes_all(form, s2);
}

/// The start of a registration of `user`, as [`crate::user::register`] makes it.
pub open spec fn registration(user: NewUser) -> AddUserFlow {
    AddUserFlow::Connecting { user, checked: true }
}

/// A registration whose email or username is taken inserts nothing, and
/// (once a connection is had) is refused as a duplicate: of the email when
/// only the email is taken, of the username when only the username is.
pub proof fn register_refuses_taken(user: NewUser, s: Store)
    requires
        s.taken(user.email, user.username),
    ensures
        ({
            let (end, s2) = run(registration(user), Step::Run(Query::Connect), s, 3);
            &&& s2 == s
            &&& s.pool_open ==> fails_with(end, ErrorCode::DuplicateEmail) || fails_with(
                end,
                ErrorCode::DuplicateUsername,
            )
            &&& s.pool_open && s.email_taken(user.email) && !s.username_taken(user.username)
                ==> fails_with(end, ErrorCode::DuplicateEmail)
            &&& s.pool_open && s.username_taken(user.username) && !s.email_taken(user.email)
                ==> fails_with(end, ErrorCode::DuplicateUsername)
            &&& !s.pool_open ==> fails_with(end, ErrorCode::DbConnectionFailed)
        }),
{
    reveal_with_fuel(run, 4);
}

/// A registration with a fresh email and username inserts the account under
/// a new id and the current time, and reading it back by username or by
/// email gives that record, with every client-supplied field unchanged.
pub proof fn register_then_read(user: NewUser, s: Store)
    requires
        s.pool_open,
        s.fresh(),
        !s.taken(user.email, user.username),
    ensures
        ({
            let (end, s2) = run(registration(user), Step::Run(Query::Connect), s, 3);
            let stored = inserted_user(user, s.next_id, s.now);
            &&& end == succeed(Notice::UserAdded, Payload::NewUser(user))
            &&& s2.users == s.users.push(stored)
            &&& s2.answer(Query::UserByUsername(user.username)) == (Reply::User(Some(stored)), s2)
            &&& s2.answer(Query::UserByEmail(user.email)) == (Reply::User(Some(stored)), s2)
        }),
{
    reveal_with_fuel(run, 4);
    let s2 = run(registration(user), Step::Run(Query::Connect), s, 3).1;
    let stored = inserted_user(user, s.next_id, s.now);
    let last = s.users.len() as int;
    assert(s2.users[last] == stored);
    assert(forall|k: int| 0 <= k < last ==> s2.users[k] == s.users[k]);
}

/// A patch changes only the fields it holds: the id, the creation time and
/// every field outside the patch are kept.
pub proof fn patch_keeps_other_fields(u: User, p: UserPatch)
    ensures
        ({
            let v = patched(u, p);
            &&& v.id == u.id
            &&& v.created_at == u.created_at
            &&& v.name == u.name
            &&& v.profile_picture == u.profile_picture
            &&& v.company_position_id == u.company_position_id
            &&& v.role == u.role
            &&& v.email == (if p.email is Some { p.email->0 } else { u.email })
            &&& v.username == (if p.username is Some { p.username->0 } else { u.username })
            &&& v.password == (if p.password is Some { p.password->0 } else { u.password })
        }),
{
}

/// Updating an account changes only the account with the old email, and
/// only as its patch says, when the keys stay unique.
pub proof fn update_user_is_partial(old_email: String, patch: UserPatch, s: Store)
    requires
        s.pool_open,
    ensures
        ({
            let flow = UpdateUserFlow::Connecting { old_email, patch };
            let (end, s2) = run(flow, Step::Run(Query::Connect), s, 3);
            &&& s2.users.len() == s.users.len()
            &&& end == succeed(Notice::UserUpdated, Payload::Empty) ==> forall|k: int|
                0 <= k < s.users.len() ==> s2.users[k] == if s.users[k].email@ == old_email@ {
                    patched(s.users[k], patch)
                } else {
                    s.users[k]
                }
            &&& end != succeed(Notice::UserUpdated, Payload::Empty) ==> s2 == s
        }),
{
    reveal_with_fuel(run, 4);
}

/// Renaming a directory entry changes the name of the entry with that id
/// and nothing else: ids and creation times are kept.
pub proof fn rename_keeps_identity(dir: Directory, id: i64, name: String, s: Store)
    requires
        s.pool_open,
    ensures
        ({
            let flow = EditEntryFlow::Connecting { dir, id: Some(id), name: Some(name), renaming: true };
            let (end, s2) = run(flow, Step::Run(Query::Connect), s, 3);
            &&& end == succeed(dir.spec_updated(), Payload::Empty)
            &&& s2.users == s.users && s2.follows == s.follows
            &&& s2.companies.len() == s.companies.len()
            &&& s2.positions.len() == s.positions.len()
            &&& forall|k: int| 0 <= k < s.companies.len() ==> {
                &&& s2.companies[k].id == s.companies[k].id
                &&& s2.companies[k].created_at == s.companies[k].created_at
                &&& s2.companies[k].name == if dir is Company && s.companies[k].id == id {
                    name
                } else {
                    s.companies[k].name
                }
            }
            &&& forall|k: int| 0 <= k < s.positions.len() ==> {
                &&& s2.positions[k].id == s.positions[k].id
                &&& s2.positions[k].created_at == s.positions[k].created_at
                &&& s2.positions[k].name == if dir is Position && s.positions[k].id == id {
                    name
                } else {
                    s.positions[k].name
                }
            }
        }),
{
    reveal_with_fuel(run, 4);
}

/// Listing all posts when the store returns none is `posts_not_found`, not
/// an empty success.
pub proof fn empty_listing_not_found(limit: i64, offset: i64, views: Vec<PostView>)
    requires
        views@.len() == 0,
    ensures
        ({
            let flow = GetPostsFlow::Connecting { id: None, username: None, limit, offset };
            let (f2, step) = flow.next(Reply::Done);
            &&& step == Step::Run(Query::PostsWithAuthors(limit, offset))
            &&& f2.next(Reply::AuthoredPosts(views)).1 == fail(ErrorCode::PostsNotFound, None)
        }),
{
}

/// Looking an account up by username reports that account together with
/// the number of edges towards it.
pub proof fn lookup_reports_followers(username: String, email: Option<String>, s: Store, k: int)
    requires
        s.wf(),
        s.pool_open,
        0 <= k < s.users.len(),
        s.users[k].username@ == username@,
    ensures
        ({
            let flow = GetUserFlow::Connecting { username: Some(username), email };
            let u = s.users[k];
            run(flow, Step::Run(Query::Connect), s, 3) == (
                succeed(
                    Notice::UserFound,
                    Payload::UserWithFollowers { user: u, follow_count: s.followers(u.id) as i64 },
                ),
                s,
            )
        }),
{
    reveal_with_fuel(run, 4);
    let p = |u: User| u.username@ == username@;
    assert(p(s.users[k]));
    let j = choose|j: int| 0 <= j < s.users.len() && p(s.users[j]);
    assert(j == k);
}

} // verus!

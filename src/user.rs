//! Account handlers: lookup with follower count, registration, the fixed
//! sample account, and partial updates.

use crate::model::{NewUser, User, UserPatch};
use crate::protocol::{
    detail_of, fail, finish_err, finish_ok, succeed, take_detail, Flow, Query, Reply, Step,
};
use crate::response::{ErrorCode, Notice, Payload};
use vstd::prelude::*;

verus! {

/// A copy of `n`, field by field.
pub fn copy_new_user(n: &NewUser) -> (r: NewUser)
    ensures
        r == *n,
{
    NewUser {
        name: n.name.clone(),
        email: n.email.clone(),
        username: n.username.clone(),
        profile_picture: match &n.profile_picture {
            Some(p) => Some(p.clone()),
            None => None,
        },
        password: n.password.clone(),
    }
}

// ---------------------------------------------------------------- lookup

/// A lookup of one account, by username if one is given, else by email.
#[derive(Debug)]
pub enum GetUserFlow {
    Connecting { username: Option<String>, email: Option<String> },
    Finding,
    Counting(User),
    Closed,
}

impl Flow for GetUserFlow {
    /// Take a connection, find the account, then count the edges towards it.
    open spec fn next(self, reply: Reply) -> (GetUserFlow, Step) {
        match self {
            GetUserFlow::Connecting { username, email } => if !(reply is Done) {
                (GetUserFlow::Closed, fail(ErrorCode::DbConnectionFailed, detail_of(reply)))
            } else if username is Some {
                (GetUserFlow::Finding, Step::Run(Query::UserByUsername(username->0)))
            } else if email is Some {
                (GetUserFlow::Finding, Step::Run(Query::UserByEmail(email->0)))
            } else {
                (GetUserFlow::Closed, fail(ErrorCode::InvalidQuery, None))
            },
            GetUserFlow::Finding => match reply {
                Reply::User(Some(u)) => (
                    GetUserFlow::Counting(u),
                    Step::Run(Query::CountFollowers(u.id)),
                ),
                Reply::User(None) => (GetUserFlow::Closed, fail(ErrorCode::UserNotFound, None)),
                _ => (GetUserFlow::Closed, fail(ErrorCode::QueryFailed, detail_of(reply))),
            },
            GetUserFlow::Counting(u) => match reply {
                Reply::Count(n) => (
                    GetUserFlow::Closed,
                    succeed(Notice::UserFound, Payload::UserWithFollowers { user: u, follow_count: n }),
                ),
                _ => (GetUserFlow::Closed, fail(ErrorCode::QueryFailed, detail_of(reply))),
            },
            GetUserFlow::Closed => (GetUserFlow::Closed, fail(ErrorCode::QueryFailed, None)),
        }
    }
}

/// Starts a lookup of the account with `username`, or else with `email`.
pub fn get_user(username: Option<String>, email: Option<String>) -> (r: (GetUserFlow, Step))
    ensures
        r == (GetUserFlow::Connecting { username, email }, Step::Run(Query::Connect)),
{
    (GetUserFlow::Connecting { username, email }, Step::Run(Query::Connect))
}

impl GetUserFlow {
    /// Resumes the lookup with the store's reply to its last query.
    pub fn resume(self, reply: Reply) -> (r: (GetUserFlow, Step))
        ensures
            r == self.next(reply),
    {
        match self {
            GetUserFlow::Connecting { username, email } => {
                if !matches!(reply, Reply::Done) {
                    (GetUserFlow::Closed, finish_err(ErrorCode::DbConnectionFailed, take_detail(reply)))
                } else if let Some(name) = username {
                    (GetUserFlow::Finding, Step::Run(Query::UserByUsername(name)))
                } else if let Some(mail) = email {
                    (GetUserFlow::Finding, Step::Run(Query::UserByEmail(mail)))
                } else {
                    (GetUserFlow::Closed, finish_err(ErrorCode::InvalidQuery, None))
                }
            },
            GetUserFlow::Finding => match reply {
                Reply::User(Some(u)) => {
                    let id = u.id;
                    (GetUserFlow::Counting(u), Step::Run(Query::CountFollowers(id)))
                },
                Reply::User(None) => (GetUserFlow::Closed, finish_err(ErrorCode::UserNotFound, None)),
                _ => (GetUserFlow::Closed, finish_err(ErrorCode::QueryFailed, take_detail(reply))),
            },
            GetUserFlow::Counting(u) => match reply {
                Reply::Count(n) => (
                    GetUserFlow::Closed,
                    finish_ok(Notice::UserFound, Payload::UserWithFollowers { user: u, follow_count: n }),
                ),
                _ => (GetUserFlow::Closed, finish_err(ErrorCode::QueryFailed, take_detail(reply))),
            },
            GetUserFlow::Closed => (GetUserFlow::Closed, finish_err(ErrorCode::QueryFailed, None)),
        }
    }
}

// ---------------------------------------------------------------- insertion

/// The insertion of a new account. Registration first checks that neither
/// its email nor its username is taken; the sample account is inserted
/// without that check.
#[derive(Debug)]
pub enum AddUserFlow {
    Connecting { user: NewUser, checked: bool },
    Checking(NewUser),
    Inserting(NewUser),
    Closed,
}

/// The step that inserts `user`.
pub open spec fn insert_step(user: NewUser) -> (AddUserFlow, Step) {
    (AddUserFlow::Inserting(user), Step::Run(Query::InsertUser(user)))
}

impl Flow for AddUserFlow {
    /// Take a connection, look for an account holding the email or the
    /// username (when checked), then insert. A found account is a duplicate
    /// email if its email is the one asked for, else a duplicate username.
    open spec fn next(self, reply: Reply) -> (AddUserFlow, Step) {
        match self {
            AddUserFlow::Connecting { user, checked } => if !(reply is Done) {
                (AddUserFlow::Closed, fail(ErrorCode::DbConnectionFailed, detail_of(reply)))
            } else if checked {
                (
                    AddUserFlow::Checking(user),
                    Step::Run(Query::UserByEmailOrUsername(user.email, user.username)),
                )
            } else {
                insert_step(user)
            },
            AddUserFlow::Checking(user) => match reply {
                Reply::User(Some(found)) => if found.email@ == user.email@ {
                    (AddUserFlow::Closed, fail(ErrorCode::DuplicateEmail, None))
                } else {
                    (AddUserFlow::Closed, fail(ErrorCode::DuplicateUsername, None))
                },
                Reply::User(None) => insert_step(user),
                _ => (AddUserFlow::Closed, fail(ErrorCode::CheckUserFailed, detail_of(reply))),
            },
            AddUserFlow::Inserting(user) => if reply is Done {
                (AddUserFlow::Closed, succeed(Notice::UserAdded, Payload::NewUser(user)))
            } else {
                (AddUserFlow::Closed, fail(ErrorCode::AddUserFailed, detail_of(reply)))
            },
            AddUserFlow::Closed => (AddUserFlow::Closed, fail(ErrorCode::QueryFailed, None)),
        }
    }
}

/// The sample account: no name, no picture, fixed email, username and
/// password.
pub open spec fn is_dummy_user(n: NewUser) -> bool {
    &&& n.name@ == ""@
    &&& n.email@ == "ex@example.com"@
    &&& n.username@ == "theuser1d"@
    &&& n.profile_picture is None
    &&& n.password@ == "password"@
}

/// Starts the insertion of the sample account, without a duplicate check.
pub fn add_dummy_user() -> (r: (AddUserFlow, Step))
    ensures
        r.1 == Step::Run(Query::Connect),
        r.0 matches AddUserFlow::Connecting { user, checked } && !checked && is_dummy_user(user),
{
    let user = NewUser {
        name: String::new(),
        email: String::from_str("ex@example.com"),
        username: String::from_str("theuser1d"),
        profile_picture: None,
        password: String::from_str("password"),
    };
    proof {
        reveal_strlit("");
        assert(user.name@ == ""@);
        assert(user.email@ == "ex@example.com"@);
        assert(user.username@ == "theuser1d"@);
        assert(user.password@ == "password"@);
    }
    (AddUserFlow::Connecting { user, checked: false }, Step::Run(Query::Connect))
}

/// Starts the registration of an account with `email`, `username` and
/// `password`, which is refused if either of the first two is taken.
pub fn register(email: String, username: String, password: String) -> (r: (AddUserFlow, Step))
    ensures
        r.1 == Step::Run(Query::Connect),
        r.0 matches AddUserFlow::Connecting { user, checked } && checked && user.name@ == ""@
            && user.email == email && user.username == username && user.password == password
            && user.profile_picture is None,
{
    let user = NewUser { name: String::new(), email, username, profile_picture: None, password };
    proof {
        reveal_strlit("");
    }
    (AddUserFlow::Connecting { user, checked: true }, Step::Run(Query::Connect))
}

impl AddUserFlow {
    /// Resumes the insertion with the store's reply to its last query.
    pub fn resume(self, reply: Reply) -> (r: (AddUserFlow, Step))
        ensures
            r == self.next(reply),
    {
        match self {
            AddUserFlow::Connecting { user, checked } => {
                if !matches!(reply, Reply::Done) {
                    (AddUserFlow::Closed, finish_err(ErrorCode::DbConnectionFailed, take_detail(reply)))
                } else if checked {
                    let query = Query::UserByEmailOrUsername(user.email.clone(), user.username.clone());
                    (AddUserFlow::Checking(user), Step::Run(query))
                } else {
                    let query = Query::InsertUser(copy_new_user(&user));
                    (AddUserFlow::Inserting(user), Step::Run(query))
                }
            },
            AddUserFlow::Checking(user) => match reply {
                Reply::User(Some(found)) => {
                    if found.email == user.email {
                        (AddUserFlow::Closed, finish_err(ErrorCode::DuplicateEmail, None))
                    } else {
                        (AddUserFlow::Closed, finish_err(ErrorCode::DuplicateUsername, None))
                    }
                },
                Reply::User(None) => {
                    let query = Query::InsertUser(copy_new_user(&user));
                    (AddUserFlow::Inserting(user), Step::Run(query))
                },
                _ => (AddUserFlow::Closed, finish_err(ErrorCode::CheckUserFailed, take_detail(reply))),
            },
            AddUserFlow::Inserting(user) => {
                if let Reply::Done = reply {
                    (AddUserFlow::Closed, finish_ok(Notice::UserAdded, Payload::NewUser(user)))
                } else {
                    (AddUserFlow::Closed, finish_err(ErrorCode::AddUserFailed, take_detail(reply)))
                }
            },
            AddUserFlow::Closed => (AddUserFlow::Closed, finish_err(ErrorCode::QueryFailed, None)),
        }
    }
}

// ---------------------------------------------------------------- update

/// A partial update of the account that holds `old_email`.
#[derive(Debug)]
pub enum UpdateUserFlow {
    Connecting { old_email: String, patch: UserPatch },
    Writing,
    Closed,
}

impl Flow for UpdateUserFlow {
    /// Take a connection, then apply the patch. Matching no account is not
    /// an error.
    open spec fn next(self, reply: Reply) -> (UpdateUserFlow, Step) {
        match self {
            UpdateUserFlow::Connecting { old_email, patch } => if reply is Done {
                (UpdateUserFlow::Writing, Step::Run(Query::UpdateUser(old_email, patch)))
            } else {
                (UpdateUserFlow::Closed, fail(ErrorCode::DbConnectionFailed, detail_of(reply)))
            },
            UpdateUserFlow::Writing => if reply is Done {
                (UpdateUserFlow::Closed, succeed(Notice::UserUpdated, Payload::Empty))
            } else {
                (UpdateUserFlow::Closed, fail(ErrorCode::UpdateUserFailed, detail_of(reply)))
            },
            UpdateUserFlow::Closed => (UpdateUserFlow::Closed, fail(ErrorCode::QueryFailed, None)),
        }
    }
}

/// Starts the update of the account with `old_email`: the fields that
/// `patch` holds are replaced, the others kept.
pub fn update_user(old_email: String, patch: UserPatch) -> (r: (UpdateUserFlow, Step))
    ensures
        r == (UpdateUserFlow::Connecting { old_email, patch }, Step::Run(Query::Connect)),
{
    (UpdateUserFlow::Connecting { old_email, patch }, Step::Run(Query::Connect))
}

impl UpdateUserFlow {
    /// Resumes the update with the store's reply to its last query.
    pub fn resume(self, reply: Reply) -> (r: (UpdateUserFlow, Step))
        ensures
            r == self.next(reply),
    {
        match self {
            UpdateUserFlow::Connecting { old_email, patch } => {
                if let Reply::Done = reply {
                    (UpdateUserFlow::Writing, Step::Run(Query::UpdateUser(old_email, patch)))
                } else {
                    (UpdateUserFlow::Closed, finish_err(ErrorCode::DbConnectionFailed, take_detail(reply)))
                }
            },
            UpdateUserFlow::Writing => {
                if let Reply::Done = reply {
                    (UpdateUserFlow::Closed, finish_ok(Notice::UserUpdated, Payload::Empty))
                } else {
                    (UpdateUserFlow::Closed, finish_err(ErrorCode::UpdateUserFailed, take_detail(reply)))
                }
            },
            UpdateUserFlow::Closed => (UpdateUserFlow::Closed, finish_err(ErrorCode::QueryFailed, None)),
        }
    }
}

} // verus!

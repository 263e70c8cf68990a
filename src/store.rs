//! The meaning of each query, on an abstract relational store.
//!
//! The store holds the account, follow and directory tables. Posts and the
//! company/position bindings are not modelled: queries on them leave the
//! modelled tables as they are and their replies are left open. Lookups
//! return some matching row, as a relational store without an ordering
//! does.

use crate::model::{inserted_user, patched, Company, Follow, NewUser, Position, User, UserPatch};
use crate::protocol::{Directory, Flow, Query, Reply, Step};
use vstd::prelude::*;

verus! {

/// The tables, the next identifier to hand out, the time of the next
/// insertion, and whether the pool can hand out a connection.
pub struct Store {
    pub users: Seq<User>,
    pub follows: Seq<Follow>,
    pub companies: Seq<Company>,
    pub positions: Seq<Position>,
    pub next_id: i64,
    pub now: i64,
    pub pool_open: bool,
}

/// Emails are unique and usernames are unique over `users`.
pub open spec fn unique_keys(users: Seq<User>) -> bool {
    forall|i: int, j: int|
        0 <= i < users.len() && 0 <= j < users.len() && i != j ==> {
            &&& users[i].email@ != users[j].email@
            &&& users[i].username@ != users[j].username@
        }
}

/// Some text that the store gives with a failure.
pub open spec fn failure_text() -> String {
    arbitrary()
}

/// The failed reply.
pub open spec fn failed() -> Reply {
    Reply::Failed(failure_text())
}

/// Some row of `rows` for which `p` holds, if there is one.
pub open spec fn some_row<T>(rows: Seq<T>, p: spec_fn(T) -> bool) -> Option<T> {
    if exists|k: int| 0 <= k < rows.len() && p(rows[k]) {
        Some(rows[choose|k: int| 0 <= k < rows.len() && p(rows[k])])
    } else {
        None
    }
}

/// Whether `e` is the edge from `a` to `b`.
pub open spec fn is_edge(e: Follow, a: i64, b: i64) -> bool {
    e.following_user_id == a && e.followed_user_id == b
}

impl Store {
    /// Identifiers are unique within each table and below `next_id`, and the
    /// account keys are unique.
    pub open spec fn wf(self) -> bool {
        &&& unique_keys(self.users)
        &&& forall|i: int| 0 <= i < self.users.len() ==> self.users[i].id < self.next_id
        &&& forall|i: int, j: int|
            0 <= i < self.users.len() && 0 <= j < self.users.len() && i != j
                ==> self.users[i].id != self.users[j].id
        &&& forall|i: int, j: int|
            0 <= i < self.companies.len() && 0 <= j < self.companies.len() && i != j
                ==> self.companies[i].id != self.companies[j].id
        &&& forall|i: int, j: int|
            0 <= i < self.positions.len() && 0 <= j < self.positions.len() && i != j
                ==> self.positions[i].id != self.positions[j].id
        &&& forall|i: int| 0 <= i < self.companies.len() ==> self.companies[i].id < self.next_id
        &&& forall|i: int| 0 <= i < self.positions.len() ==> self.positions[i].id < self.next_id
    }

    pub open spec fn has_user(self, id: i64) -> bool {
        exists|k: int| 0 <= k < self.users.len() && self.users[k].id == id
    }

    /// Whether an account holds `email` or `username`.
    pub open spec fn taken(self, email: String, username: String) -> bool {
        exists|k: int|
            0 <= k < self.users.len() && (self.users[k].email@ == email@
                || self.users[k].username@ == username@)
    }

    /// The number of edges towards `id`.
    pub open spec fn followers(self, id: i64) -> nat {
        self.follows.filter(|e: Follow| e.followed_user_id == id).len()
    }

    /// Whether some edge goes from `a` to `b`.
    pub open spec fn has_edge(self, a: i64, b: i64) -> bool {
        exists|k: int| 0 <= k < self.follows.len() && is_edge(self.follows[k], a, b)
    }

    pub open spec fn email_taken(self, email: String) -> bool {
        exists|k: int| 0 <= k < self.users.len() && self.users[k].email@ == email@
    }

    pub open spec fn username_taken(self, username: String) -> bool {
        exists|k: int| 0 <= k < self.users.len() && self.users[k].username@ == username@
    }

    pub open spec fn fresh(self) -> bool {
        self.next_id < i64::MAX
    }

    pub open spec fn take_id(self) -> Store {
        Store { next_id: (self.next_id + 1) as i64, ..self }
    }

    pub open spec fn insert_user(self, n: NewUser) -> (Reply, Store) {
        if self.taken(n.email, n.username) || !self.fresh() {
            (failed(), self)
        } else {
            (
                Reply::Done,
                Store {
                    users: self.users.push(inserted_user(n, self.next_id, self.now)),
                    ..self.take_id()
                },
            )
        }
    }

    pub open spec fn update_user(self, email: String, p: UserPatch) -> (Reply, Store) {
        let users = self.users.map_values(
            |u: User|
                if u.email@ == email@ {
                    patched(u, p)
                } else {
                    u
                },
        );
        if unique_keys(users) {
            (Reply::Done, Store { users, ..self })
        } else {
            (failed(), self)
        }
    }

    pub open spec fn insert_follow(self, a: i64, b: i64) -> (Reply, Store) {
        if self.has_user(a) && self.has_user(b) && self.fresh() {
            let e = Follow {
                id: self.next_id,
                created_at: self.now,
                following_user_id: a,
                followed_user_id: b,
            };
            (Reply::Done, Store { follows: self.follows.push(e), ..self.take_id() })
        } else {
            (failed(), self)
        }
    }

    pub open spec fn delete_follows(self, a: i64, b: i64) -> (Reply, Store) {
        (Reply::Done, Store { follows: self.follows.filter(|e: Follow| !is_edge(e, a, b)), ..self })
    }

    pub open spec fn insert_entry(self, dir: Directory, name: String) -> (Reply, Store) {
        if !self.fresh() {
            (failed(), self)
        } else {
            match dir {
                Directory::Company => (
                    Reply::Done,
                    Store {
                        companies: self.companies.push(
                            Company { id: self.next_id, created_at: self.now, name },
                        ),
                        ..self.take_id()
                    },
                ),
                Directory::Position => (
                    Reply::Done,
                    Store {
                        positions: self.positions.push(
                            Position { id: self.next_id, created_at: self.now, name },
                        ),
                        ..self.take_id()
                    },
                ),
            }
        }
    }

    pub open spec fn rename_entry(self, dir: Directory, id: i64, name: String) -> (Reply, Store) {
        match dir {
            Directory::Company => (
                Reply::Done,
                Store {
                    companies: self.companies.map_values(
                        |c: Company|
                            if c.id == id {
                                Company { name, ..c }
                            } else {
                                c
                            },
                    ),
                    ..self
                },
            ),
            Directory::Position => (
                Reply::Done,
                Store {
                    positions: self.positions.map_values(
                        |p: Position|
                            if p.id == id {
                                Position { name, ..p }
                            } else {
                                p
                            },
                    ),
                    ..self
                },
            ),
        }
    }

    /// The reply to `q` and the store after it.
    pub open spec fn answer(self, q: Query) -> (Reply, Store) {
        match q {
            Query::Connect => if self.pool_open {
                (Reply::Done, self)
            } else {
                (failed(), self)
            },
            Query::UserById(i) => (Reply::User(some_row(self.users, |u: User| u.id == i)), self),
            Query::UserByUsername(n) => (
                Reply::User(some_row(self.users, |u: User| u.username@ == n@)),
                self,
            ),
            Query::UserByEmail(e) => (
                Reply::User(some_row(self.users, |u: User| u.email@ == e@)),
                self,
            ),
            Query::UserByEmailOrUsername(e, n) => (
                Reply::User(some_row(self.users, |u: User| u.email@ == e@ || u.username@ == n@)),
                self,
            ),
            Query::CountFollowers(i) => (Reply::Count(self.followers(i) as i64), self),
            Query::InsertUser(n) => self.insert_user(n),
            Query::UpdateUser(e, p) => self.update_user(e, p),
            Query::InsertFollow(a, b) => self.insert_follow(a, b),
            Query::DeleteFollows(a, b) => self.delete_follows(a, b),
            Query::EntryById(Directory::Company, i) => (
                Reply::Company(some_row(self.companies, |c: Company| c.id == i)),
                self,
            ),
            Query::EntryById(Directory::Position, i) => (
                Reply::Position(some_row(self.positions, |p: Position| p.id == i)),
                self,
            ),
            Query::InsertEntry(dir, n) => self.insert_entry(dir, n),
            Query::RenameEntry(dir, i, n) => self.rename_entry(dir, i, n),
            _ => (arbitrary(), self),
        }
    }
}

/// The step and store reached from `step` when the store answers each query
/// of `flow`, for at most `fuel` queries.
pub open spec fn run<F: Flow>(flow: F, step: Step, s: Store, fuel: nat) -> (Step, Store)
    decreases fuel,
{
    match step {
        Step::Run(q) => if fuel == 0 {
            (step, s)
        } else {
            let (reply, s2) = s.answer(q);
            let (f2, step2) = flow.next(reply);
            run(f2, step2, s2, (fuel - 1) as nat)
        },
        Step::Finish(_) => (step, s),
    }
}

} // verus!

//! The company and position directory. Both tables share one set of
//! operations; each keeps its own notices and error codes.

use crate::protocol::{
    detail_of, fail, finish_err, finish_ok, succeed, take_detail, Directory, Flow, Query, Reply,
    Step,
};
use crate::response::{ErrorCode, Notice, Payload};
use vstd::prelude::*;

verus! {

impl Directory {
    pub open spec fn spec_not_found(self) -> ErrorCode {
        match self {
            Directory::Company => ErrorCode::CompanyNotFound,
            Directory::Position => ErrorCode::PositionNotFound,
        }
    }

    pub open spec fn spec_id_required(self) -> ErrorCode {
        match self {
            Directory::Company => ErrorCode::CompanyIdRequired,
            Directory::Position => ErrorCode::PositionIdRequired,
        }
    }

    pub open spec fn spec_name_required(self) -> ErrorCode {
        match self {
            Directory::Company => ErrorCode::CompanyNameRequired,
            Directory::Position => ErrorCode::PositionNameRequired,
        }
    }

    pub open spec fn spec_add_failed(self) -> ErrorCode {
        match self {
            Directory::Company => ErrorCode::CompanyAddFailed,
            Directory::Position => ErrorCode::PositionAddFailed,
        }
    }

    pub open spec fn spec_update_failed(self) -> ErrorCode {
        match self {
            Directory::Company => ErrorCode::CompanyUpdateFailed,
            Directory::Position => ErrorCode::PositionUpdateFailed,
        }
    }

    pub open spec fn spec_added(self) -> Notice {
        match self {
            Directory::Company => Notice::CompanyAdded,
            Directory::Position => Notice::PositionAdded,
        }
    }

    pub open spec fn spec_updated(self) -> Notice {
        match self {
            Directory::Company => Notice::CompanyUpdated,
            Directory::Position => Notice::PositionUpdated,
        }
    }

    pub fn not_found(self) -> (r: ErrorCode)
        ensures
            r == self.spec_not_found(),
    {
        match self {
            Directory::Company => ErrorCode::CompanyNotFound,
            Directory::Position => ErrorCode::PositionNotFound,
        }
    }

    pub fn id_required(self) -> (r: ErrorCode)
        ensures
            r == self.spec_id_required(),
    {
        match self {
            Directory::Company => ErrorCode::CompanyIdRequired,
            Directory::Position => ErrorCode::PositionIdRequired,
        }
    }

    pub fn name_required(self) -> (r: ErrorCode)
        ensures
            r == self.spec_name_required(),
    {
        match self {
            Directory::Company => ErrorCode::CompanyNameRequired,
            Directory::Position => ErrorCode::PositionNameRequired,
        }
    }

    pub fn add_failed(self) -> (r: ErrorCode)
        ensures
            r == self.spec_add_failed(),
    {
        match self {
            Directory::Company => ErrorCode::CompanyAddFailed,
            Directory::Position => ErrorCode::PositionAddFailed,
        }
    }

    pub fn update_failed(self) -> (r: ErrorCode)
        ensures
            r == self.spec_update_failed(),
    {
        match self {
            Directory::Company => ErrorCode::CompanyUpdateFailed,
            Directory::Position => ErrorCode::PositionUpdateFailed,
        }
    }

    pub fn added(self) -> (r: Notice)
        ensures
            r == self.spec_added(),
    {
        match self {
            Directory::Company => Notice::CompanyAdded,
            Directory::Position => Notice::PositionAdded,
        }
    }

    pub fn updated(self) -> (r: Notice)
        ensures
            r == self.spec_updated(),
    {
        match self {
            Directory::Company => Notice::CompanyUpdated,
            Directory::Position => Notice::PositionUpdated,
        }
    }
}

// ---------------------------------------------------------------- reading

/// A read of the directory: one entry by id, or, for companies only, the
/// listing of every company/position binding.
#[derive(Debug)]
pub enum GetEntryFlow {
    Connecting { dir: Directory, id: Option<i64> },
    Finding(Directory),
    Listing,
    Closed,
}

impl Flow for GetEntryFlow {
    /// Take a connection, then find the entry, or list the bindings when no
    /// id is given. Positions have no listing: without an id the request is
    /// `invalid_query`.
    open spec fn next(self, reply: Reply) -> (GetEntryFlow, Step) {
        match self {
            GetEntryFlow::Connecting { dir, id } => if !(reply is Done) {
                (GetEntryFlow::Closed, fail(ErrorCode::DbConnectionFailed, detail_of(reply)))
            } else if id is Some {
                (GetEntryFlow::Finding(dir), Step::Run(Query::EntryById(dir, id->0)))
            } else if dir is Company {
                (GetEntryFlow::Listing, Step::Run(Query::CompanyListing))
            } else {
                (GetEntryFlow::Closed, fail(ErrorCode::InvalidQuery, None))
            },
            GetEntryFlow::Finding(dir) => match (dir, reply) {
                (Directory::Company, Reply::Company(Some(c))) => (
                    GetEntryFlow::Closed,
                    succeed(Notice::CompanyFound, Payload::Company(c)),
                ),
                (Directory::Position, Reply::Position(Some(p))) => (
                    GetEntryFlow::Closed,
                    succeed(Notice::PositionFound, Payload::Position(p)),
                ),
                _ => (GetEntryFlow::Closed, fail(dir.spec_not_found(), None)),
            },
            GetEntryFlow::Listing => match reply {
                Reply::Listing(rows) => (
                    GetEntryFlow::Closed,
                    succeed(Notice::CompaniesFound, Payload::CompanyListing(rows)),
                ),
                _ => (GetEntryFlow::Closed, fail(ErrorCode::InvalidQuery, None)),
            },
            GetEntryFlow::Closed => (GetEntryFlow::Closed, fail(ErrorCode::QueryFailed, None)),
        }
    }
}

/// Starts a read of the entry `id` of `dir`, or of the company listing.
pub fn get_entry(dir: Directory, id: Option<i64>) -> (r: (GetEntryFlow, Step))
    ensures
        r == (GetEntryFlow::Connecting { dir, id }, Step::Run(Query::Connect)),
{
    (GetEntryFlow::Connecting { dir, id }, Step::Run(Query::Connect))
}

/// Starts a read of the company `id`, or of the company listing without one.
pub fn get_company(id: Option<i64>) -> (r: (GetEntryFlow, Step))
    ensures
        r == (GetEntryFlow::Connecting { dir: Directory::Company, id }, Step::Run(Query::Connect)),
{
    get_entry(Directory::Company, id)
}

/// Starts a read of the position `id`.
pub fn get_position(id: Option<i64>) -> (r: (GetEntryFlow, Step))
    ensures
        r == (GetEntryFlow::Connecting { dir: Directory::Position, id }, Step::Run(Query::Connect)),
{
    get_entry(Directory::Position, id)
}

impl GetEntryFlow {
    /// Resumes the read with the store's reply to its last query.
    pub fn resume(self, reply: Reply) -> (r: (GetEntryFlow, Step))
        ensures
            r == self.next(reply),
    {
        match self {
            GetEntryFlow::Connecting { dir, id } => {
                if !matches!(reply, Reply::Done) {
                    (GetEntryFlow::Closed, finish_err(ErrorCode::DbConnectionFailed, take_detail(reply)))
                } else if let Some(i) = id {
                    (GetEntryFlow::Finding(dir), Step::Run(Query::EntryById(dir, i)))
                } else if let Directory::Company = dir {
                    (GetEntryFlow::Listing, Step::Run(Query::CompanyListing))
                } else {
                    (GetEntryFlow::Closed, finish_err(ErrorCode::InvalidQuery, None))
                }
            },
            GetEntryFlow::Finding(dir) => match (dir, reply) {
                (Directory::Company, Reply::Company(Some(c))) => (
                    GetEntryFlow::Closed,
                    finish_ok(Notice::CompanyFound, Payload::Company(c)),
                ),
                (Directory::Position, Reply::Position(Some(p))) => (
                    GetEntryFlow::Closed,
                    finish_ok(Notice::PositionFound, Payload::Position(p)),
                ),
                _ => (GetEntryFlow::Closed, finish_err(dir.not_found(), None)),
            },
            GetEntryFlow::Listing => match reply {
                Reply::Listing(rows) => (
                    GetEntryFlow::Closed,
                    finish_ok(Notice::CompaniesFound, Payload::CompanyListing(rows)),
                ),
                _ => (GetEntryFlow::Closed, finish_err(ErrorCode::InvalidQuery, None)),
            },
            GetEntryFlow::Closed => (GetEntryFlow::Closed, finish_err(ErrorCode::QueryFailed, None)),
        }
    }
}

// ---------------------------------------------------------------- writing

/// An insertion into the directory, or a renaming of one of its entries.
#[derive(Debug)]
pub enum EditEntryFlow {
    Connecting { dir: Directory, id: Option<i64>, name: Option<String>, renaming: bool },
    Writing { dir: Directory, renaming: bool },
    Closed,
}

impl Flow for EditEntryFlow {
    /// Take a connection, check the fields (the id first, when renaming,
    /// then the name), then write.
    open spec fn next(self, reply: Reply) -> (EditEntryFlow, Step) {
        match self {
            EditEntryFlow::Connecting { dir, id, name, renaming } => if !(reply is Done) {
                (EditEntryFlow::Closed, fail(ErrorCode::DbConnectionFailed, detail_of(reply)))
            } else if renaming && id is None {
                (EditEntryFlow::Closed, fail(dir.spec_id_required(), None))
            } else if name is None {
                (EditEntryFlow::Closed, fail(dir.spec_name_required(), None))
            } else if renaming {
                (
                    EditEntryFlow::Writing { dir, renaming },
                    Step::Run(Query::RenameEntry(dir, id->0, name->0)),
                )
            } else {
                (EditEntryFlow::Writing { dir, renaming }, Step::Run(Query::InsertEntry(dir, name->0)))
            },
            EditEntryFlow::Writing { dir, renaming } => if reply is Done {
                (
                    EditEntryFlow::Closed,
                    succeed(
                        if renaming {
                            dir.spec_updated()
                        } else {
                            dir.spec_added()
                        },
                        Payload::Empty,
                    ),
                )
            } else {
                (
                    EditEntryFlow::Closed,
                    fail(
                        if renaming {
                            dir.spec_update_failed()
                        } else {
                            dir.spec_add_failed()
                        },
                        detail_of(reply),
                    ),
                )
            },
            EditEntryFlow::Closed => (EditEntryFlow::Closed, fail(ErrorCode::QueryFailed, None)),
        }
    }
}

/// Starts the insertion of an entry called `name` into `dir`.
pub fn add_entry(dir: Directory, name: Option<String>) -> (r: (EditEntryFlow, Step))
    ensures
        r == (EditEntryFlow::Connecting { dir, id: None, name, renaming: false }, Step::Run(
            Query::Connect,
        )),
{
    (EditEntryFlow::Connecting { dir, id: None, name, renaming: false }, Step::Run(Query::Connect))
}

/// Starts the insertion of a company called `name`.
pub fn add_company(name: Option<String>) -> (r: (EditEntryFlow, Step))
    ensures
        r == (EditEntryFlow::Connecting {
            dir: Directory::Company,
            id: None,
            name,
            renaming: false,
        }, Step::Run(Query::Connect)),
{
    add_entry(Directory::Company, name)
}

/// Starts the insertion of a position called `name`.
pub fn add_position(name: Option<String>) -> (r: (EditEntryFlow, Step))
    ensures
        r == (EditEntryFlow::Connecting {
            dir: Directory::Position,
            id: None,
            name,
            renaming: false,
        }, Step::Run(Query::Connect)),
{
    add_entry(Directory::Position, name)
}

/// Starts renaming the entry `id` of `dir` to `name`; nothing else of the
/// entry changes.
pub fn update(dir: Directory, id: Option<i64>, name: Option<String>) -> (r: (EditEntryFlow, Step))
    ensures
        r == (EditEntryFlow::Connecting { dir, id, name, renaming: true }, Step::Run(
            Query::Connect,
        )),
{
    (EditEntryFlow::Connecting { dir, id, name, renaming: true }, Step::Run(Query::Connect))
}

impl EditEntryFlow {
    /// Resumes the write with the store's reply to its last query.
    pub fn resume(self, reply: Reply) -> (r: (EditEntryFlow, Step))
        ensures
            r == self.next(reply),
    {
        match self {
            EditEntryFlow::Connecting { dir, id, name, renaming } => {
                if !matches!(reply, Reply::Done) {
                    (EditEntryFlow::Closed, finish_err(ErrorCode::DbConnectionFailed, take_detail(reply)))
                } else if renaming && id.is_none() {
                    (EditEntryFlow::Closed, finish_err(dir.id_required(), None))
                } else {
                    match name {
                        None => (EditEntryFlow::Closed, finish_err(dir.name_required(), None)),
                        Some(n) => {
                            let query = match id {
                                Some(i) if renaming => Query::RenameEntry(dir, i, n),
                                _ => Query::InsertEntry(dir, n),
                            };
                            (EditEntryFlow::Writing { dir, renaming }, Step::Run(query))
                        },
                    }
                }
            },
            EditEntryFlow::Writing { dir, renaming } => {
                if let Reply::Done = reply {
                    let notice = if renaming {
                        dir.updated()
                    } else {
                        dir.added()
                    };
                    (EditEntryFlow::Closed, finish_ok(notice, Payload::Empty))
                } else {
                    let code = if renaming {
                        dir.update_failed()
                    } else {
                        dir.add_failed()
                    };
                    (EditEntryFlow::Closed, finish_err(code, take_detail(reply)))
                }
            },
            EditEntryFlow::Closed => (EditEntryFlow::Closed, finish_err(ErrorCode::QueryFailed, None)),
        }
    }
}

} // verus!

use social_graph::directory::{
    add_company, add_position, get_company, get_position, update, EditEntryFlow, GetEntryFlow,
};
use social_graph::follow::{follow, unfollow, EdgeFlow, FollowForm};
use social_graph::model::{
    Company, CompanyPosition, CompanyRow, Follow, NewUser, Position, Post, PostView, User,
    UserPatch,
};
use social_graph::post::{add_post, get_posts, AddPostFlow, GetPostsFlow};
use social_graph::protocol::{Directory, Query, Reply, Step};
use social_graph::response::{ErrorCode, ErrorResponse, Notice, OkResponse, Payload};
use social_graph::user::{
    add_dummy_user, get_user, register, update_user, AddUserFlow, GetUserFlow, UpdateUserFlow,
};

/// A small in-memory store that answers queries as a relational store would.
struct Db {
    users: Vec<User>,
    follows: Vec<Follow>,
    posts: Vec<Post>,
    companies: Vec<Company>,
    positions: Vec<Position>,
    bindings: Vec<CompanyPosition>,
    next_id: i64,
    now: i64,
    pool_open: bool,
    queries: Vec<Query>,
}

impl Db {
    fn new() -> Db {
        Db {
            users: vec![],
            follows: vec![],
            posts: vec![],
            companies: vec![],
            positions: vec![],
            bindings: vec![],
            next_id: 1,
            now: 1_000,
            pool_open: true,
            queries: vec![],
        }
    }

    fn take_id(&mut self) -> (i64, i64) {
        let id = self.next_id;
        self.next_id += 1;
        self.now += 10;
        (id, self.now)
    }

    fn user_by(&self, f: impl Fn(&User) -> bool) -> Option<User> {
        self.users.iter().find(|u| f(u)).cloned()
    }

    fn answer(&mut self, q: Query) -> Reply {
        self.queries.push(q.clone());
        match q {
            Query::Connect => {
                if self.pool_open {
                    Reply::Done
                } else {
                    Reply::Failed("pool exhausted".to_string())
                }
            }
            Query::UserById(i) => Reply::User(self.user_by(|u| u.id == i)),
            Query::UserByUsername(n) => Reply::User(self.user_by(|u| u.username == n)),
            Query::UserByEmail(e) => Reply::User(self.user_by(|u| u.email == e)),
            Query::UserByEmailOrUsername(e, n) => {
                Reply::User(self.user_by(|u| u.email == e || u.username == n))
            }
            Query::CountFollowers(i) => {
                Reply::Count(self.follows.iter().filter(|f| f.followed_user_id == i).count() as i64)
            }
            Query::InsertUser(n) => {
                if self.users.iter().any(|u| u.email == n.email || u.username == n.username) {
                    return Reply::Failed("unique violation".to_string());
                }
                let (id, at) = self.take_id();
                self.users.push(User {
                    id,
                    created_at: at,
                    name: n.name,
                    email: n.email,
                    username: n.username,
                    profile_picture: n.profile_picture,
                    password: n.password,
                    company_position_id: None,
                    role: 0,
                });
                Reply::Done
            }
            Query::UpdateUser(e, p) => {
                for u in self.users.iter_mut().filter(|u| u.email == e) {
                    if let Some(v) = &p.email {
                        u.email = v.clone();
                    }
                    if let Some(v) = &p.username {
                        u.username = v.clone();
                    }
                    if let Some(v) = &p.password {
                        u.password = v.clone();
                    }
                }
                Reply::Done
            }
            Query::InsertFollow(a, b) => {
                let (id, at) = self.take_id();
                self.follows.push(Follow {
                    id,
                    created_at: at,
                    following_user_id: a,
                    followed_user_id: b,
                });
                Reply::Done
            }
            Query::DeleteFollows(a, b) => {
                self.follows
                    .retain(|f| !(f.following_user_id == a && f.followed_user_id == b));
                Reply::Done
            }
            Query::PostById(i) => {
                Reply::Posts(self.posts.iter().filter(|p| p.id == i).cloned().collect())
            }
            Query::PostsByUser(u, limit, offset) => Reply::Posts(
                self.posts
                    .iter()
                    .filter(|p| p.user_id == u)
                    .skip(offset as usize)
                    .take(limit as usize)
                    .cloned()
                    .collect(),
            ),
            Query::PostsWithAuthors(limit, offset) => {
                let mut views = vec![];
                for p in &self.posts {
                    if let Some(u) = self.users.iter().find(|u| u.id == p.user_id) {
                        views.push(PostView {
                            post: p.clone(),
                            username: u.username.clone(),
                            name: u.name.clone(),
                        });
                    }
                }
                Reply::AuthoredPosts(
                    views.into_iter().skip(offset as usize).take(limit as usize).collect(),
                )
            }
            Query::InsertPost(u, body) => {
                let (id, at) = self.take_id();
                self.posts.push(Post { id, created_at: at, body, user_id: u });
                Reply::Done
            }
            Query::EntryById(Directory::Company, i) => {
                Reply::Company(self.companies.iter().find(|c| c.id == i).cloned())
            }
            Query::EntryById(Directory::Position, i) => {
                Reply::Position(self.positions.iter().find(|c| c.id == i).cloned())
            }
            Query::InsertEntry(dir, name) => {
                let (id, created_at) = self.take_id();
                match dir {
                    Directory::Company => self.companies.push(Company { id, created_at, name }),
                    Directory::Position => self.positions.push(Position { id, created_at, name }),
                }
                Reply::Done
            }
            Query::RenameEntry(dir, i, name) => {
                match dir {
                    Directory::Company => {
                        for c in self.companies.iter_mut().filter(|c| c.id == i) {
                            c.name = name.clone();
                        }
                    }
                    Directory::Position => {
                        for c in self.positions.iter_mut().filter(|c| c.id == i) {
                            c.name = name.clone();
                        }
                    }
                }
                Reply::Done
            }
            Query::CompanyListing => {
                let mut rows = vec![];
                for b in &self.bindings {
                    let c = self.companies.iter().find(|c| c.id == b.company_id);
                    let p = self.positions.iter().find(|p| p.id == b.position_id);
                    if let (Some(c), Some(p)) = (c, p) {
                        rows.push(CompanyRow {
                            id: b.id,
                            company_name: c.name.clone(),
                            position_name: p.name.clone(),
                        });
                    }
                }
                Reply::Listing(rows)
            }
        }
    }
}

type Outcome = Result<OkResponse, ErrorResponse>;

fn drive<F>(start: (F, Step), db: &mut Db, resume: fn(F, Reply) -> (F, Step)) -> Outcome {
    let (mut flow, mut step) = start;
    for _ in 0..10 {
        match step {
            Step::Finish(r) => return r,
            Step::Run(q) => {
                let reply = db.answer(q);
                let (f, s) = resume(flow, reply);
                flow = f;
                step = s;
            }
        }
    }
    panic!("handler did not finish");
}

fn edge(db: &mut Db, unfollowing: bool, a: i64, b: i64) -> Outcome {
    let form = FollowForm { user_id: a, followed_user_id: b };
    let start = if unfollowing { unfollow(form) } else { follow(form) };
    drive(start, db, EdgeFlow::resume)
}

fn reg(db: &mut Db, email: &str, username: &str) -> Outcome {
    drive(
        register(email.to_string(), username.to_string(), "pw".to_string()),
        db,
        AddUserFlow::resume,
    )
}

fn lookup(db: &mut Db, username: Option<&str>, email: Option<&str>) -> Outcome {
    drive(
        get_user(username.map(|s| s.to_string()), email.map(|s| s.to_string())),
        db,
        GetUserFlow::resume,
    )
}

fn code_of(o: &Outcome) -> ErrorCode {
    match o {
        Err(e) => e.error_code,
        Ok(r) => panic!("expected an error, got {:?}", r),
    }
}

fn follow_count(o: &Outcome) -> i64 {
    match o {
        Ok(OkResponse { data: Payload::UserWithFollowers { follow_count, .. }, .. }) => {
            *follow_count
        }
        other => panic!("expected a user, got {:?}", other),
    }
}

fn with_two_users() -> Db {
    let mut db = Db::new();
    assert!(reg(&mut db, "a@x.com", "a").is_ok());
    assert!(reg(&mut db, "b@x.com", "b").is_ok());
    db
}

#[test]
fn register_duplicate_email_inserts_nothing() {
    let mut db = with_two_users();
    let r = reg(&mut db, "a@x.com", "fresh");
    assert_eq!(code_of(&r), ErrorCode::DuplicateEmail);
    assert_eq!(db.users.len(), 2);
    assert!(!db.queries.iter().any(|q| matches!(q, Query::InsertUser(n) if n.username == "fresh")));
}

#[test]
fn register_duplicate_username_inserts_nothing() {
    let mut db = with_two_users();
    let r = reg(&mut db, "fresh@x.com", "b");
    assert_eq!(code_of(&r), ErrorCode::DuplicateUsername);
    assert_eq!(db.users.len(), 2);
}

#[test]
fn register_conflict_from_store_is_reported() {
    let mut db = Db::new();
    let (flow, _) = register("a@x.com".to_string(), "a".to_string(), "pw".to_string());
    let (flow, step) = flow.resume(Reply::Done);
    assert!(matches!(step, Step::Run(Query::UserByEmailOrUsername(_, _))));
    let (flow, step) = flow.resume(Reply::User(None));
    assert!(matches!(step, Step::Run(Query::InsertUser(_))));
    let (_, step) = flow.resume(Reply::Failed("duplicate key".to_string()));
    match step {
        Step::Finish(Err(e)) => {
            assert_eq!(e.error_code, ErrorCode::AddUserFailed);
            assert_eq!(e.status_code(), 500);
            assert_eq!(e.message(), "Failed to add user: duplicate key");
        }
        _ => panic!("expected a failure"),
    }
    assert!(db.users.is_empty());
    db.pool_open = false;
    assert_eq!(code_of(&reg(&mut db, "a@x.com", "a")), ErrorCode::DbConnectionFailed);
}

#[test]
fn self_follow_is_refused_before_storage() {
    let mut db = with_two_users();
    let before = db.queries.len();
    assert_eq!(code_of(&edge(&mut db, false, 1, 1)), ErrorCode::UserFollowingSelf);
    assert_eq!(code_of(&edge(&mut db, true, 2, 2)), ErrorCode::UserUnfollowingSelf);
    assert_eq!(db.queries.len(), before);
    assert_eq!(ErrorCode::UserFollowingSelf.status(), 400);
}

#[test]
fn follow_unknown_user_creates_nothing() {
    let mut db = with_two_users();
    assert_eq!(code_of(&edge(&mut db, false, 1, 99)), ErrorCode::UserNotFound);
    assert_eq!(code_of(&edge(&mut db, false, 99, 1)), ErrorCode::UserNotFound);
    assert!(db.follows.is_empty());
    assert_eq!(ErrorCode::UserNotFound.status(), 404);
    assert_eq!(ErrorCode::UserNotFound.as_str(), "user_not_found");
}

#[test]
fn follow_twice_then_unfollow_once_leaves_no_edge() {
    let mut db = with_two_users();
    assert!(edge(&mut db, false, 1, 2).is_ok());
    assert!(edge(&mut db, false, 1, 2).is_ok());
    assert!(edge(&mut db, false, 2, 1).is_ok());
    assert_eq!(db.follows.len(), 3);
    let r = edge(&mut db, true, 1, 2).unwrap();
    assert_eq!(r.notice, Notice::Unfollowed);
    assert_eq!(r.data, Payload::Empty);
    assert_eq!(db.follows.len(), 1);
    assert_eq!(db.follows[0].following_user_id, 2);
}

#[test]
fn listing_no_posts_is_posts_not_found() {
    let mut db = with_two_users();
    let r = drive(get_posts(None, None, None, None), &mut db, GetPostsFlow::resume);
    assert_eq!(code_of(&r), ErrorCode::PostsNotFound);
    assert!(db.queries.contains(&Query::PostsWithAuthors(20, 0)));
}

#[test]
fn rename_keeps_id_and_creation_time() {
    let mut db = Db::new();
    let r = drive(add_company(Some("Acme".to_string())), &mut db, EditEntryFlow::resume);
    assert_eq!(r.unwrap().notice, Notice::CompanyAdded);
    let before = db.companies[0].clone();
    let r = drive(update(Directory::Company, Some(before.id), Some("Acme Two".to_string())), &mut db, EditEntryFlow::resume);
    assert_eq!(r.unwrap().notice, Notice::CompanyUpdated);
    assert_eq!(db.companies[0].id, before.id);
    assert_eq!(db.companies[0].created_at, before.created_at);
    assert_eq!(db.companies[0].name, "Acme Two");
}

#[test]
fn update_missing_fields_are_reported() {
    let mut db = Db::new();
    let r = drive(update(Directory::Position, None, Some("x".to_string())), &mut db, EditEntryFlow::resume);
    assert_eq!(code_of(&r), ErrorCode::PositionIdRequired);
    let r = drive(update(Directory::Company, Some(1), None), &mut db, EditEntryFlow::resume);
    assert_eq!(code_of(&r), ErrorCode::CompanyNameRequired);
    let r = drive(add_position(None), &mut db, EditEntryFlow::resume);
    assert_eq!(code_of(&r), ErrorCode::PositionNameRequired);
}

#[test]
fn user_patch_keeps_unnamed_fields() {
    let mut db = with_two_users();
    let before = db.users[0].clone();
    let patch = UserPatch { email: None, username: Some("alpha".to_string()), password: None };
    let r = drive(update_user("a@x.com".to_string(), patch), &mut db, UpdateUserFlow::resume);
    assert_eq!(r.unwrap().notice, Notice::UserUpdated);
    let after = &db.users[0];
    assert_eq!(after.username, "alpha");
    assert_eq!(after.email, before.email);
    assert_eq!(after.password, before.password);
    assert_eq!(after.id, before.id);
    assert_eq!(after.created_at, before.created_at);
}

#[test]
fn register_then_read_back() {
    let mut db = Db::new();
    let r = reg(&mut db, "a@x.com", "a").unwrap();
    assert_eq!(r.notice, Notice::UserAdded);
    match r.data {
        Payload::NewUser(n) => {
            assert_eq!(n.email, "a@x.com");
            assert_eq!(n.username, "a");
            assert_eq!(n.password, "pw");
            assert_eq!(n.name, "");
            assert_eq!(n.profile_picture, None);
        }
        other => panic!("unexpected data {:?}", other),
    }
    for found in [lookup(&mut db, Some("a"), None), lookup(&mut db, None, Some("a@x.com"))] {
        match found.unwrap().data {
            Payload::UserWithFollowers { user, follow_count } => {
                assert_eq!(user.id, 1);
                assert_eq!(user.created_at, 1_010);
                assert_eq!(user.email, "a@x.com");
                assert_eq!(user.username, "a");
                assert_eq!(user.password, "pw");
                assert_eq!(follow_count, 0);
            }
            other => panic!("unexpected data {:?}", other),
        }
    }
}

#[test]
fn follow_count_end_to_end() {
    let mut db = with_two_users();
    assert!(edge(&mut db, false, 1, 2).is_ok());
    assert_eq!(follow_count(&lookup(&mut db, Some("b"), None)), 1);
    assert!(edge(&mut db, true, 1, 2).is_ok());
    assert_eq!(follow_count(&lookup(&mut db, Some("b"), None)), 0);
}

#[test]
fn company_name_required_then_listing() {
    let mut db = Db::new();
    let r = drive(add_company(None), &mut db, EditEntryFlow::resume);
    assert_eq!(code_of(&r), ErrorCode::CompanyNameRequired);
    assert_eq!(r.unwrap_err().status_code(), 400);
    assert!(drive(add_company(Some("Acme".to_string())), &mut db, EditEntryFlow::resume).is_ok());
    assert!(drive(add_position(Some("Engineer".to_string())), &mut db, EditEntryFlow::resume).is_ok());
    db.bindings.push(CompanyPosition { id: 7, created_at: 5, position_id: 2, company_id: 1 });
    let r = drive(get_company(None), &mut db, GetEntryFlow::resume).unwrap();
    assert_eq!(r.notice, Notice::CompaniesFound);
    assert_eq!(
        r.data,
        Payload::CompanyListing(vec![CompanyRow {
            id: 7,
            company_name: "Acme".to_string(),
            position_name: "Engineer".to_string(),
        }])
    );
}

#[test]
fn entry_lookups() {
    let mut db = Db::new();
    assert!(drive(add_position(Some("Engineer".to_string())), &mut db, EditEntryFlow::resume).is_ok());
    let r = drive(get_position(Some(1)), &mut db, GetEntryFlow::resume).unwrap();
    assert_eq!(r.notice, Notice::PositionFound);
    assert!(matches!(r.data, Payload::Position(p) if p.name == "Engineer" && p.id == 1));
    let r = drive(get_position(None), &mut db, GetEntryFlow::resume);
    assert_eq!(code_of(&r), ErrorCode::InvalidQuery);
    let r = drive(get_company(Some(1)), &mut db, GetEntryFlow::resume);
    assert_eq!(code_of(&r), ErrorCode::CompanyNotFound);
}

#[test]
fn get_user_without_key_is_invalid_query() {
    let mut db = with_two_users();
    assert_eq!(code_of(&lookup(&mut db, None, None)), ErrorCode::InvalidQuery);
    assert_eq!(code_of(&lookup(&mut db, Some("nobody"), None)), ErrorCode::UserNotFound);
}

#[test]
fn posts_by_id_and_by_author() {
    let mut db = with_two_users();
    db.users[0].name = "Alice".to_string();
    let r = drive(add_post(Some(1), Some("hello".to_string())), &mut db, AddPostFlow::resume);
    assert_eq!(r.unwrap().notice, Notice::PostAdded);
    assert!(drive(add_post(Some(1), Some("again".to_string())), &mut db, AddPostFlow::resume).is_ok());
    let r = drive(get_posts(Some(3), None, None, None), &mut db, GetPostsFlow::resume).unwrap();
    assert_eq!(r.notice, Notice::PostFound);
    match r.data {
        Payload::AuthoredPosts { posts, username, name } => {
            assert_eq!(posts.len(), 1);
            assert_eq!(posts[0].body, "hello");
            assert_eq!(username, "a");
            assert_eq!(name, "Alice");
        }
        other => panic!("unexpected data {:?}", other),
    }
    let r = drive(get_posts(None, Some("a".to_string()), Some(1), Some(1)), &mut db, GetPostsFlow::resume)
        .unwrap();
    match r.data {
        Payload::AuthoredPosts { posts, .. } => {
            assert_eq!(posts.len(), 1);
            assert_eq!(posts[0].body, "again");
        }
        other => panic!("unexpected data {:?}", other),
    }
    let r = drive(get_posts(None, None, None, None), &mut db, GetPostsFlow::resume).unwrap();
    assert!(matches!(r.data, Payload::Posts(v) if v.len() == 2));
    let r = drive(get_posts(Some(99), None, None, None), &mut db, GetPostsFlow::resume);
    assert_eq!(code_of(&r), ErrorCode::PostNotFound);
    let r = drive(get_posts(None, Some("zz".to_string()), None, None), &mut db, GetPostsFlow::resume);
    assert_eq!(code_of(&r), ErrorCode::UserNotFound);
}

#[test]
fn add_post_checks_fields_and_author() {
    let mut db = with_two_users();
    let r = drive(add_post(None, Some("x".to_string())), &mut db, AddPostFlow::resume);
    assert_eq!(code_of(&r), ErrorCode::UserIdRequired);
    let r = drive(add_post(Some(1), None), &mut db, AddPostFlow::resume);
    assert_eq!(code_of(&r), ErrorCode::PostBodyRequired);
    let r = drive(add_post(Some(42), Some("x".to_string())), &mut db, AddPostFlow::resume);
    assert_eq!(code_of(&r), ErrorCode::UserNotFound);
    assert!(db.posts.is_empty());
}

#[test]
fn dummy_user_is_inserted_without_check() {
    let mut db = Db::new();
    let r = drive(add_dummy_user(), &mut db, AddUserFlow::resume).unwrap();
    assert_eq!(r.notice, Notice::UserAdded);
    assert_eq!(db.users[0].email, "ex@example.com");
    assert_eq!(db.users[0].username, "theuser1d");
    assert_eq!(db.users[0].password, "password");
    assert!(!db.queries.iter().any(|q| matches!(q, Query::UserByEmailOrUsername(_, _))));
    let r = drive(add_dummy_user(), &mut db, AddUserFlow::resume);
    assert_eq!(code_of(&r), ErrorCode::AddUserFailed);
    assert_eq!(r.unwrap_err().message(), "Failed to add user: unique violation");
}

#[test]
fn error_texts() {
    let e = ErrorResponse::new(ErrorCode::DuplicateEmail, None);
    assert_eq!(e.message(), "Duplicate email");
    assert_eq!(e.status_code(), 400);
    assert_eq!(ErrorCode::PostsNotFound.as_str(), "posts_not_found");
    assert_eq!(ErrorCode::DbConnectionFailed.status(), 500);
    assert_eq!(Notice::CompaniesFound.describe(), "Companies found");
    let ok = OkResponse::new(Notice::PostAdded, Payload::Empty);
    assert_eq!(ok.notice, Notice::PostAdded);
    let n = NewUser {
        name: String::new(),
        email: "e".to_string(),
        username: "u".to_string(),
        profile_picture: None,
        password: "p".to_string(),
    };
    assert_eq!(social_graph::user::copy_new_user(&n), n);
}

//! A social-graph data service: accounts, posts, follower edges and a
//! company/position directory.
//!
//! Every request handler is a small state machine. It is started from the
//! request's fields, asks for one storage operation at a time ([`protocol::Query`]),
//! and is resumed with the store's answer ([`protocol::Reply`]) until it
//! finishes with a response. The machines decide everything that does not
//! need the store; the caller only performs the queries.
//! [`store`] gives the meaning of each query on an abstract relational
//! store, and [`laws`] proves what the handlers guarantee against it.

pub mod model;
pub mod response;
pub mod protocol;
pub mod follow;
pub mod user;
pub mod post;
pub mod directory;
pub mod store;
pub mod laws;

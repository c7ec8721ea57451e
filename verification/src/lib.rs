//! Authorization core of a door-entry controller.
//!
//! A presented tag is resolved to the member who owns it, an optional
//! secondary authentication step is run through a caller-supplied callback,
//! and the member's current access-control state is returned.  Members are
//! kept in a relational store reached through `rusqlite`.

pub mod error;
pub mod gateway;
pub mod identify;
pub mod member;
pub mod schema;
pub mod tag;

pub use error::IdentificationError;
pub use schema::create_tables;
pub use identify::identify_user;
pub use member::Member;
pub use tag::Tag;

//! Provisioning of the two tables the library works on.

use vstd::prelude::*;
use crate::gateway::{execute_plain, holds};
use crate::member::{written, written_as};

verus! {

/// Statement that creates the table of tags unless it is there already.
pub const CREATE_TAGS_SQL: &'static str = "CREATE TABLE IF NOT EXISTS tags (
             tag_id VARBINARY(32) NOT NULL PRIMARY KEY,
             uid    INTEGER NOT NULL,
             auth_method INTEGER,
             auth_data BLOB
            )";

/// Statement that creates the table of members unless it is there already.
pub const CREATE_MEMBERS_SQL: &'static str = "CREATE TABLE IF NOT EXISTS members (
             uid          INTEGER NOT NULL PRIMARY KEY,
             manager      BOOLEAN NOT NULL,
             ban_time     INTEGER,
             last_attempt INTEGER,
             max_auto     INTEGER NOT NULL,
             last_enter   INTEGER,
             last_leave   INTEGER
            )";

/// The two tables of the store.
#[derive(Clone, Copy, Debug)]
pub enum Table {
    /// The table of tags.
    Tags,
    /// The table of members.
    Members,
}

impl Table {
    /// The text of the statement that creates the table.
    pub open spec fn creation_text(self) -> Seq<char> {
        match self {
            Table::Tags => CREATE_TAGS_SQL@,
            Table::Members => CREATE_MEMBERS_SQL@,
        }
    }

    /// The statement that creates the table.
    pub fn creation(self) -> (sql: &'static str)
        ensures
            sql@ == self.creation_text(),
    {
        match self {
            Table::Tags => CREATE_TAGS_SQL,
            Table::Members => CREATE_MEMBERS_SQL,
        }
    }
}

/// Creates the two tables the library works on: first the tags, then the
/// members.  Each statement creates its table only where it is missing, so
/// the call can be repeated: after a failure that left one table behind, a
/// second call completes the provisioning, and on a provisioned store it
/// changes nothing.
///
/// Whether a statement succeeds is the store's decision; the outcome is what
/// [`written_as`] gives for an answer of the store, the first failure if
/// there is one.  Success comes only after both statements, each without a
/// parameter.
pub fn create_tables(conn: &mut rusqlite::Connection) -> (outcome: Result<(), rusqlite::Error>)
    ensures
        exists|changed: Result<usize, rusqlite::Error>| outcome == written_as(changed),
        outcome is Ok ==> holds(Table::Tags.creation_text(), Seq::empty()) && holds(
            Table::Members.creation_text(),
            Seq::empty(),
        ),
{
    match execute_plain(conn, Table::Tags.creation()) {
        Ok(_) => {},
        Err(e) => {
            assert(Err::<(), rusqlite::Error>(e) == written_as(Err(e)));
            return Err(e);
        },
    }
    let changed = execute_plain(conn, Table::Members.creation());
    let ghost answer = changed;
    let outcome = written(changed);
    assert(outcome == written_as(answer));
    outcome
}

} // verus!

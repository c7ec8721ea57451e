//! The member entity, its stored form and its persistence operations.

use vstd::prelude::*;
use crate::gateway::{bound, execute_key, execute_record, holds, prepare, text, Cell};

verus! {

/// One person authorized to interact with the space.
#[derive(Eq, PartialEq, Debug, Structural)]
pub struct Member {
    /// Globally unique identity of the member.
    pub uid: u32,
    /// Whether the member may add and remove other members.
    pub can_manage_users: bool,
    /// Until when entry must be denied; `None` means the member is not banned.
    pub ban_time: Option<i64>,
    /// When the member last attempted to enter without success.
    pub last_open_attempt: Option<i64>,
    /// Seconds of inactivity after which automatic mode switches itself off.
    pub max_auto_inactive: i64,
    /// When the member last entered (Unix seconds); `None` if never.
    pub last_enter_time: Option<i64>,
    /// When the member last left (Unix seconds); `None` if never.
    pub last_leave_time: Option<i64>,
}

/// The column values of one row of the `members` table, in the types the
/// store binds and yields them.
#[derive(Debug)]
pub struct MemberRecord {
    pub uid: i64,
    pub manager: bool,
    pub ban_time: Option<i64>,
    pub last_attempt: Option<i64>,
    pub max_auto: i64,
    pub last_enter: Option<i64>,
    pub last_leave: Option<i64>,
}

/// The column that holds an integer or, for `None`, the null.
pub open spec fn optional_cell(value: Option<i64>) -> Cell {
    match value {
        Some(i) => Cell::Integer(i),
        None => Cell::Null,
    }
}

/// The seven columns that hold a member's record: integers as they are, a
/// flag as one or zero, an absent time as the null.
pub open spec fn member_columns(rec: MemberRecord) -> Seq<Cell> {
    seq![
        Cell::Integer(rec.uid),
        Cell::Integer(if rec.manager { 1i64 } else { 0i64 }),
        optional_cell(rec.ban_time),
        optional_cell(rec.last_attempt),
        Cell::Integer(rec.max_auto),
        optional_cell(rec.last_enter),
        optional_cell(rec.last_leave),
    ]
}

/// Why an update did not take place.
#[derive(Debug)]
pub enum UpdateError {
    /// The store failed.
    DatabaseError(rusqlite::Error),
    /// No member with the given `uid` is stored, so nothing was changed.
    NoSuchMember,
}

/// Statement that creates a member and fails where the `uid` is taken.
pub const INSERT_SQL: &'static str =
    "INSERT INTO members (uid, manager, ban_time, last_attempt, max_auto, last_enter, last_leave)
     VALUES (?, ?, ?, ?, ?, ?, ?)";

/// Statement that creates a member or overwrites the one with the same `uid`.
pub const REPLACE_SQL: &'static str =
    "REPLACE INTO members (uid, manager, ban_time, last_attempt, max_auto, last_enter, last_leave)
     VALUES (?, ?, ?, ?, ?, ?, ?)";

/// Statement that overwrites every field of the member with the given `uid`.
pub const UPDATE_SQL: &'static str =
    "UPDATE members
     SET manager = ?2, ban_time = ?3, last_attempt = ?4, max_auto = ?5, last_enter = ?6, last_leave = ?7
     WHERE uid = ?1";

/// Statement that removes the member with the given `uid`.
pub const DELETE_SQL: &'static str = "DELETE FROM members
     WHERE uid = ?";

/// The operations of the member store, each of which is one statement.
#[derive(Clone, Copy, Debug)]
pub enum StoreOperation {
    /// Create a member; fails where the `uid` is taken.
    Insert,
    /// Create a member or overwrite the one with the same `uid`.
    Replace,
    /// Overwrite every field of an existing member.
    Update,
    /// Remove a member.
    Delete,
}

impl StoreOperation {
    /// The text of the statement that carries out the operation.
    pub open spec fn statement_text(self) -> Seq<char> {
        match self {
            StoreOperation::Insert => INSERT_SQL@,
            StoreOperation::Replace => REPLACE_SQL@,
            StoreOperation::Update => UPDATE_SQL@,
            StoreOperation::Delete => DELETE_SQL@,
        }
    }

    /// The statement that carries out the operation.
    pub fn statement(self) -> (sql: &'static str)
        ensures
            sql@ == self.statement_text(),
    {
        match self {
            StoreOperation::Insert => INSERT_SQL,
            StoreOperation::Replace => REPLACE_SQL,
            StoreOperation::Update => UPDATE_SQL,
            StoreOperation::Delete => DELETE_SQL,
        }
    }
}

/// What an insert or a replace reports for an answer of the store.
pub open spec fn written_as(changed: Result<usize, rusqlite::Error>) -> Result<
    (),
    rusqlite::Error,
> {
    match changed {
        Ok(_) => Ok(()),
        Err(e) => Err(e),
    }
}

/// What an update reports for an answer of the store.
pub open spec fn updated_as(changed: Result<usize, rusqlite::Error>) -> Result<(), UpdateError> {
    match changed {
        Ok(n) => if n == 0 {
            Err(UpdateError::NoSuchMember)
        } else {
            Ok(())
        },
        Err(e) => Err(UpdateError::DatabaseError(e)),
    }
}

/// What a delete reports for an answer of the store.
pub open spec fn removed_as(changed: Result<usize, rusqlite::Error>) -> Result<
    bool,
    rusqlite::Error,
> {
    match changed {
        Ok(n) => Ok(n == 1),
        Err(e) => Err(e),
    }
}

/// What an insert or a replace reports, given what the store said of the
/// statement: success whatever the number of rows, the store's error as it
/// is.
pub fn written(changed: Result<usize, rusqlite::Error>) -> (outcome: Result<(), rusqlite::Error>)
    ensures
        outcome == written_as(changed),
{
    match changed {
        Ok(_) => Ok(()),
        Err(e) => Err(e),
    }
}

/// What an update reports, given what the store said of the statement: it
/// succeeded only if a row was changed; with no row changed there is no such
/// member.
pub fn updated(changed: Result<usize, rusqlite::Error>) -> (outcome: Result<(), UpdateError>)
    ensures
        outcome == updated_as(changed),
{
    match changed {
        Ok(n) => if n == 0 {
            Err(UpdateError::NoSuchMember)
        } else {
            Ok(())
        },
        Err(e) => Err(UpdateError::DatabaseError(e)),
    }
}

/// What a delete reports, given what the store said of the statement: whether
/// exactly one row was removed.
pub fn removed(changed: Result<usize, rusqlite::Error>) -> (outcome: Result<bool, rusqlite::Error>)
    ensures
        outcome == removed_as(changed),
{
    match changed {
        Ok(n) => Ok(n == 1),
        Err(e) => Err(e),
    }
}

impl Member {
    /// The key by which the member's row is found: its `uid`.
    pub fn key(&self) -> (key: i64)
        ensures
            key == self.record().uid,
    {
        self.uid as i64
    }

    /// Runs a prepared statement with the member's seven columns bound in
    /// order, and yields the number of rows it changed.  Whether the
    /// statement succeeds, and how many rows it changes, is the store's
    /// decision; where it succeeded, the statement's parameters hold the
    /// columns of `self.record()`.
    pub fn exec_stmt(&self, stmt: &mut rusqlite::Statement<'_>) -> (changed: Result<
        usize,
        rusqlite::Error,
    >)
        ensures
            text(*final(stmt)) == text(*old(stmt)),
            changed is Ok ==> bound(*final(stmt)) == member_columns(self.record()),
    {
        let rec = self.to_record();
        execute_record(stmt, &rec)
    }

    /// Stores the member as a new row.  Fails with the store's error where a
    /// member with the same `uid` is stored already.
    ///
    /// Runs the statement of `StoreOperation::Insert` with `self.record()`
    /// bound.  Whether that succeeds is the store's decision; the outcome is
    /// what [`written_as`] gives for an answer of the store, and success
    /// comes only with that statement holding those values.
    pub fn insert(&self, conn: &mut rusqlite::Connection) -> (outcome: Result<
        (),
        rusqlite::Error,
    >)
        ensures
            exists|changed: Result<usize, rusqlite::Error>| outcome == written_as(changed),
            outcome is Ok ==> holds(
                StoreOperation::Insert.statement_text(),
                member_columns(self.record()),
            ),
    {
        let mut stmt = match prepare(conn, StoreOperation::Insert.statement()) {
            Ok(stmt) => stmt,
            Err(e) => {
                assert(Err::<(), rusqlite::Error>(e) == written_as(Err(e)));
                return Err(e);
            },
        };
        let changed = self.exec_stmt(&mut stmt);
        let ghost answer = changed;
        let outcome = written(changed);
        assert(outcome == written_as(answer));
        assert(answer is Ok ==> text(stmt) == StoreOperation::Insert.statement_text() && bound(stmt)
            == member_columns(self.record()));
        outcome
    }

    /// Stores the member, overwriting every field of the row with the same
    /// `uid` if there is one.
    ///
    /// Runs the statement of `StoreOperation::Replace` with `self.record()`
    /// bound.  Whether that succeeds is the store's decision; the outcome is
    /// what [`written_as`] gives for an answer of the store, and success
    /// comes only with that statement holding those values.
    pub fn replace(&self, conn: &mut rusqlite::Connection) -> (outcome: Result<
        (),
        rusqlite::Error,
    >)
        ensures
            exists|changed: Result<usize, rusqlite::Error>| outcome == written_as(changed),
            outcome is Ok ==> holds(
                StoreOperation::Replace.statement_text(),
                member_columns(self.record()),
            ),
    {
        let mut stmt = match prepare(conn, StoreOperation::Replace.statement()) {
            Ok(stmt) => stmt,
            Err(e) => {
                assert(Err::<(), rusqlite::Error>(e) == written_as(Err(e)));
                return Err(e);
            },
        };
        let changed = self.exec_stmt(&mut stmt);
        let ghost answer = changed;
        let outcome = written(changed);
        assert(outcome == written_as(answer));
        assert(answer is Ok ==> text(stmt) == StoreOperation::Replace.statement_text() && bound(stmt)
            == member_columns(self.record()));
        outcome
    }

    /// Overwrites every field of the stored member with the same `uid`.
    /// Fails with `NoSuchMember` where no row has that `uid`.
    ///
    /// Runs the statement of `StoreOperation::Update` with `self.record()`
    /// bound.  Whether a row matches is the store's decision; the outcome is
    /// what [`updated_as`] gives for an answer of the store, and success or
    /// `NoSuchMember` comes only with that statement holding those values.
    pub fn update(&self, conn: &mut rusqlite::Connection) -> (outcome: Result<(), UpdateError>)
        ensures
            exists|changed: Result<usize, rusqlite::Error>| outcome == updated_as(changed),
            !(outcome matches Err(UpdateError::DatabaseError(_))) ==> holds(
                StoreOperation::Update.statement_text(),
                member_columns(self.record()),
            ),
    {
        let mut stmt = match prepare(conn, StoreOperation::Update.statement()) {
            Ok(stmt) => stmt,
            Err(e) => {
                assert(Err::<(), UpdateError>(UpdateError::DatabaseError(e)) == updated_as(
                    Err(e),
                ));
                return Err(UpdateError::DatabaseError(e));
            },
        };
        let changed = self.exec_stmt(&mut stmt);
        let ghost answer = changed;
        let outcome = updated(changed);
        assert(outcome == updated_as(answer));
        assert(answer is Ok ==> text(stmt) == StoreOperation::Update.statement_text() && bound(stmt)
            == member_columns(self.record()));
        outcome
    }

    /// Removes the stored member with the same `uid`.  `Ok(true)` if a row
    /// was removed, `Ok(false)` if there was none.
    ///
    /// Runs the statement of `StoreOperation::Delete` with `self.key()`
    /// bound.  Whether a row matches is the store's decision; the outcome is
    /// what [`removed_as`] gives for an answer of the store, and an answer
    /// comes only with that statement holding that key.
    pub fn delete(&self, conn: &mut rusqlite::Connection) -> (outcome: Result<
        bool,
        rusqlite::Error,
    >)
        ensures
            exists|changed: Result<usize, rusqlite::Error>| outcome == removed_as(changed),
            outcome is Ok ==> holds(
                StoreOperation::Delete.statement_text(),
                seq![Cell::Integer(self.record().uid)],
            ),
    {
        let mut stmt = match prepare(conn, StoreOperation::Delete.statement()) {
            Ok(stmt) => stmt,
            Err(e) => {
                assert(Err::<bool, rusqlite::Error>(e) == removed_as(Err(e)));
                return Err(e);
            },
        };
        let changed = execute_key(&mut stmt, self.key());
        let ghost answer = changed;
        let outcome = removed(changed);
        assert(outcome == removed_as(answer));
        assert(answer is Ok ==> text(stmt) == StoreOperation::Delete.statement_text() && bound(stmt)
            == seq![Cell::Integer(self.record().uid)]);
        outcome
    }

    /// The row that stores this member.
    pub open spec fn record(self) -> MemberRecord {
        MemberRecord {
            uid: self.uid as i64,
            manager: self.can_manage_users,
            ban_time: self.ban_time,
            last_attempt: self.last_open_attempt,
            max_auto: self.max_auto_inactive,
            last_enter: self.last_enter_time,
            last_leave: self.last_leave_time,
        }
    }

    /// The member that a row stands for.  The stored `uid` is cut down to its
    /// low 32 bits.
    pub open spec fn of_record(rec: MemberRecord) -> Member {
        Member {
            uid: rec.uid as u32,
            can_manage_users: rec.manager,
            ban_time: rec.ban_time,
            last_open_attempt: rec.last_attempt,
            max_auto_inactive: rec.max_auto,
            last_enter_time: rec.last_enter,
            last_leave_time: rec.last_leave,
        }
    }

    /// Encodes the member as the row that is written to the store.
    pub fn to_record(&self) -> (rec: MemberRecord)
        ensures
            rec == self.record(),
    {
        MemberRecord {
            uid: self.uid as i64,
            manager: self.can_manage_users,
            ban_time: self.ban_time,
            last_attempt: self.last_open_attempt,
            max_auto: self.max_auto_inactive,
            last_enter: self.last_enter_time,
            last_leave: self.last_leave_time,
        }
    }

    /// Decodes a row of the store into the member it stands for.
    pub fn from_record(rec: &MemberRecord) -> (member: Member)
        ensures
            member == Member::of_record(*rec),
    {
        Member {
            uid: #[verifier::truncate] (rec.uid as u32),
            can_manage_users: rec.manager,
            ban_time: rec.ban_time,
            last_open_attempt: rec.last_attempt,
            max_auto_inactive: rec.max_auto,
            last_enter_time: rec.last_enter,
            last_leave_time: rec.last_leave,
        }
    }
}

/// Writing a member as a row and reading that row back gives the member
/// again, equal in every field.
pub proof fn lemma_record_round_trip(m: Member)
    ensures
        Member::of_record(m.record()) == m,
{
    let uid = m.uid;
    assert(((uid as i64) as u32) == uid) by (bit_vector);
}

} // verus!

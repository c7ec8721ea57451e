//! The identification protocol: from a presented tag to the member who owns
//! it, through an optional secondary authentication.

use vstd::prelude::*;
use crate::error::IdentificationError;
use crate::gateway::{
    holds,
    cell_at,
    cells,
    Cell,
    integer_in,
    optional_bytes_in,
    optional_integer_in,
    column_integer,
    column_optional_bytes,
    column_optional_integer,
    next_row,
    prepare,
    query_bytes,
};
use crate::member::{member_columns, Member, MemberRecord};

verus! {

/// What a tag asks of the secondary authenticator.
#[derive(Debug)]
pub struct Challenge {
    /// Code of the authentication scheme; its meaning is the authenticator's.
    pub method: u32,
    /// Data that the scheme needs to check the tag.
    pub data: Vec<u8>,
}

/// One decoded row of the join of tags and members.
#[derive(Debug)]
pub struct TagMemberRow {
    /// The secondary authentication the tag asks for; `None` where the tag
    /// carries no authentication data and possession alone suffices.
    pub challenge: Option<Challenge>,
    /// The columns of the owning member.
    pub member: MemberRecord,
}

/// The query that joins a tag to its owner.
pub const IDENTIFY_SQL: &'static str =
    "SELECT t.auth_method, t.auth_data, m.uid, m.manager, m.ban_time, last_attempt, max_auto, last_enter, last_leave
     FROM tags t
     INNER JOIN members m
     ON t.uid = m.uid
     WHERE t.tag_id = ?";

/// The statement that an identification runs: the join of a tag to its
/// owner.  The presented tag is bound to it as it came.
pub fn identify_statement() -> (sql: &'static str)
    ensures
        sql@ == IDENTIFY_SQL@,
{
    IDENTIFY_SQL
}

/// The outcome of an identification, given what the store yielded for the
/// tag and what the authenticator said.  `verdict` is only looked at where
/// the row carries a challenge.
pub open spec fn identification<E>(
    fetched: Result<Option<TagMemberRow>, rusqlite::Error>,
    verdict: Result<(), E>,
) -> Result<Member, IdentificationError<E>> {
    match fetched {
        Err(e) => Err(IdentificationError::DatabaseError(e)),
        Ok(None) => Err(IdentificationError::TagNotFound),
        Ok(Some(row)) => match (row.challenge, verdict) {
            (Some(_), Err(e)) => Err(IdentificationError::TagAuthenticationError(e)),
            _ => Ok(Member::of_record(row.member)),
        },
    }
}

/// The challenge that has to be put to the authenticator, if any.
pub open spec fn challenge_of(fetched: Result<Option<TagMemberRow>, rusqlite::Error>) -> Option<
    Challenge,
> {
    match fetched {
        Ok(Some(row)) => row.challenge,
        _ => None,
    }
}

/// An unknown tag: where the store yields no row, the identification fails
/// with `TagNotFound`, whatever the authenticator would have said.
pub proof fn lemma_no_row_is_not_found<E>(verdict: Result<(), E>)
    ensures
        identification(Ok(None), verdict) == Err::<Member, IdentificationError<E>>(
            IdentificationError::TagNotFound,
        ),
{
}

/// Possession alone: a row without a challenge identifies its member,
/// whatever the authenticator would have said.
pub proof fn lemma_no_challenge_gives_member<E>(row: TagMemberRow, verdict: Result<(), E>)
    requires
        row.challenge is None,
    ensures
        identification(Ok(Some(row)), verdict) == Ok::<Member, IdentificationError<E>>(
            Member::of_record(row.member),
        ),
{
}

/// The authentication gate: where the row carries a challenge and the
/// authenticator fails with `e`, the identification fails with
/// `TagAuthenticationError(e)` and gives no member.
pub proof fn lemma_rejection_is_reported<E>(row: TagMemberRow, e: E)
    requires
        row.challenge is Some,
    ensures
        identification(Ok(Some(row)), Err(e)) == Err::<Member, IdentificationError<E>>(
            IdentificationError::TagAuthenticationError(e),
        ),
{
}

/// Where the row carries a challenge and the authenticator accepts it, the
/// identification gives the row's member.
pub proof fn lemma_acceptance_gives_member<E>(row: TagMemberRow)
    ensures
        identification(Ok(Some(row)), Ok::<(), E>(())) == Ok::<Member, IdentificationError<E>>(
            Member::of_record(row.member),
        ),
{
}

/// A failure of the store comes before everything else: it is reported as
/// `DatabaseError`, whatever the authenticator would have said.
pub proof fn lemma_store_failure_is_reported<E>(e: rusqlite::Error, verdict: Result<(), E>)
    ensures
        identification(Err(e), verdict) == Err::<Member, IdentificationError<E>>(
            IdentificationError::DatabaseError(e),
        ),
{
}

/// Whether `verdict` is an answer of `callback` to the challenge `c`.
pub open spec fn answered<E, Cb: FnOnce(u32, &[u8]) -> Result<(), E>>(
    callback: Cb,
    c: Challenge,
    verdict: Result<(), E>,
) -> bool {
    exists|data: &[u8]| data@ == c.data@ && callback.ensures((c.method, data), verdict)
}

/// Whether `outcome` is what the protocol gives for the store's answer
/// `fetched`, with `verdict` an answer of `callback` to the challenge where
/// there is one.
pub open spec fn explained_by<E, Cb: FnOnce(u32, &[u8]) -> Result<(), E>>(
    outcome: Result<Member, IdentificationError<E>>,
    callback: Cb,
    fetched: Result<Option<TagMemberRow>, rusqlite::Error>,
    verdict: Result<(), E>,
) -> bool {
    &&& outcome == identification(fetched, verdict)
    &&& challenge_of(fetched) matches Some(c) ==> answered(callback, c, verdict)
}

/// Decides an identification from what the store yielded for the tag.
///
/// Where the row carries a challenge, `callback` is called with it and its
/// answer decides.  Where there is no row, no challenge, or the store
/// failed, the outcome is fixed without the callback: nothing is required of
/// the callback there, so it cannot be called, and the outcome is the one
/// that any verdict gives.  The callback is taken as `FnOnce`: it is used up
/// by its one call and cannot be called a second time.
pub fn conclude<E, Cb>(
    fetched: Result<Option<TagMemberRow>, rusqlite::Error>,
    callback: Cb,
) -> (outcome: Result<Member, IdentificationError<E>>) where
    Cb: FnOnce(u32, &[u8]) -> Result<(), E>,

    requires
        challenge_of(fetched) matches Some(c) ==> forall|data: &[u8]|
            data@ == c.data@ ==> callback.requires((c.method, data)),
    ensures
        challenge_of(fetched) is None ==> outcome == identification(fetched, Ok::<(), E>(())),
        challenge_of(fetched) matches Some(c) ==> exists|verdict: Result<(), E>|
            answered(callback, c, verdict) && outcome == identification(fetched, verdict),
{
    match fetched {
        Err(e) => Err(IdentificationError::DatabaseError(e)),
        Ok(None) => Err(IdentificationError::TagNotFound),
        Ok(Some(row)) => {
            let member = Member::from_record(&row.member);
            match row.challenge {
                None => Ok(member),
                Some(c) => {
                    let ghost asked = callback;
                    let data = c.data.as_slice();
                    let verdict = callback(c.method, data);
                    assert(answered(asked, c, verdict));
                    let outcome = match verdict {
                        Ok(_) => Ok(member),
                        Err(e) => Err(IdentificationError::TagAuthenticationError(e)),
                    };
                    assert(outcome == identification(fetched, verdict));
                    outcome
                },
            }
        },
    }
}

/// Whether the first two columns can be read as a tag's challenge: the
/// second holds null or bytes, and with bytes the first holds an integer.
/// Without bytes the first column is not looked at.
pub open spec fn challenge_readable(columns: Seq<Cell>) -> bool {
    match optional_bytes_in(cell_at(columns, 1)) {
        None => false,
        Some(None) => true,
        Some(Some(_)) => integer_in(cell_at(columns, 0)) is Some,
    }
}

/// The member columns of a row of the join, the third to the ninth; `None`
/// where one of them cannot be read as its field.
pub open spec fn member_in(columns: Seq<Cell>) -> Option<MemberRecord> {
    if integer_in(cell_at(columns, 2)) is Some && integer_in(cell_at(columns, 3)) is Some
        && optional_integer_in(cell_at(columns, 4)) is Some && optional_integer_in(
        cell_at(columns, 5),
    ) is Some && integer_in(cell_at(columns, 6)) is Some && optional_integer_in(
        cell_at(columns, 7),
    ) is Some && optional_integer_in(cell_at(columns, 8)) is Some {
        Some(
            MemberRecord {
                uid: integer_in(cell_at(columns, 2)).unwrap(),
                manager: integer_in(cell_at(columns, 3)).unwrap() != 0,
                ban_time: optional_integer_in(cell_at(columns, 4)).unwrap(),
                last_attempt: optional_integer_in(cell_at(columns, 5)).unwrap(),
                max_auto: integer_in(cell_at(columns, 6)).unwrap(),
                last_enter: optional_integer_in(cell_at(columns, 7)).unwrap(),
                last_leave: optional_integer_in(cell_at(columns, 8)).unwrap(),
            },
        )
    } else {
        None
    }
}

/// Round trip: a row of the join whose member columns hold the record of
/// `m` reads back as a member equal to `m` in every field.
pub proof fn lemma_stored_member_reads_back(m: Member, columns: Seq<Cell>)
    requires
        columns.len() == 9,
        columns.subrange(2, 9) == member_columns(m.record()),
    ensures
        member_in(columns) == Some(m.record()),
        Member::of_record(member_in(columns).unwrap()) == m,
{
    let held = member_columns(m.record());
    assert forall|i: int| 2 <= i < 9 implies #[trigger] columns[i] == held[i - 2] by {
        assert(columns.subrange(2, 9)[i - 2] == columns[i]);
    }
    crate::member::lemma_record_round_trip(m);
}

/// Whether a row of the join can be decoded.
pub open spec fn readable(columns: Seq<Cell>) -> bool {
    challenge_readable(columns) && member_in(columns) is Some
}

/// Whether `row` is the decoding of the readable columns `columns`: the
/// challenge holds the bytes of the second column and the low 32 bits of the
/// first, and is absent where the second column is null.
pub open spec fn reads_as(columns: Seq<Cell>, row: TagMemberRow) -> bool {
    &&& member_in(columns) == Some(row.member)
    &&& match optional_bytes_in(cell_at(columns, 1)) {
        Some(Some(bytes)) => row.challenge matches Some(c) && c.data@ == bytes && c.method
            == integer_in(cell_at(columns, 0)).unwrap() as u32,
        _ => row.challenge is None,
    }
}

/// Decodes the row a cursor stands on.  The authentication data is read
/// first, and the authentication method only where there is such data; then
/// the member's columns, in the order the query projects them.  A row that
/// cannot be decoded gives the store's error for the first column that
/// could not be read.
pub fn read_row(row: &rusqlite::Row<'_>) -> (decoded: Result<TagMemberRow, rusqlite::Error>)
    ensures
        match decoded {
            Ok(r) => readable(cells(*row)) && reads_as(cells(*row), r),
            Err(_) => !readable(cells(*row)),
        },
{
    let challenge = match column_optional_bytes(row, 1)? {
        None => None,
        Some(data) => {
            let method = column_integer(row, 0)?;
            Some(Challenge { method: #[verifier::truncate] (method as u32), data })
        },
    };
    let member = MemberRecord {
        uid: column_integer(row, 2)?,
        manager: column_integer(row, 3)? != 0,
        ban_time: column_optional_integer(row, 4)?,
        last_attempt: column_optional_integer(row, 5)?,
        max_auto: column_integer(row, 6)?,
        last_enter: column_optional_integer(row, 7)?,
        last_leave: column_optional_integer(row, 8)?,
    };
    Ok(TagMemberRow { challenge, member })
}

/// Whether a row that the store yielded, if any, is the decoding of
/// readable columns.
pub open spec fn well_read(fetched: Result<Option<TagMemberRow>, rusqlite::Error>) -> bool {
    fetched matches Ok(Some(r)) ==> exists|columns: Seq<Cell>|
        readable(columns) && reads_as(columns, r)
}

/// Runs the join query for `tag_id` and decodes the first row of its cursor,
/// if there is one.  Whether there is a row, and what it holds, is the
/// store's matter; a row that comes back is the decoding of readable
/// columns, and an answer comes back only after the statement of
/// `identify_statement` was queried with `tag_id` bound.
pub fn first_row(connection: &rusqlite::Connection, tag_id: &[u8]) -> (fetched: Result<
    Option<TagMemberRow>,
    rusqlite::Error,
>)
    ensures
        well_read(fetched),
        fetched is Ok ==> holds(IDENTIFY_SQL@, seq![Cell::Bytes(tag_id@)]),
{
    let mut stmt = prepare(connection, identify_statement())?;
    let mut rows = query_bytes(&mut stmt, tag_id)?;
    match next_row(&mut rows)? {
        None => Ok(None),
        Some(row) => Ok(Some(read_row(row)?)),
    }
}

/// Identifies the member who owns the tag `tag_id`.
///
/// One query joins the tag to its owner.  Where the tag carries
/// authentication data, `callback` is called once with the tag's method and
/// data, and its failure ends the attempt with `TagAuthenticationError`.
/// A tag without such data is authenticated by possession alone.  A tag that
/// is unknown, or whose owner is missing, gives `TagNotFound`; a failure of
/// the store gives `DatabaseError`.
///
/// What the store yields is not known beforehand, so `callback` has to
/// accept every method and data.  The outcome is the one that
/// [`identification`] gives for some answer of the store and, where that
/// answer carries a challenge, for a verdict of `callback` on it.  The member
/// is returned as stored: whether a ban or a timeout applies is the caller's
/// decision.
pub fn identify_user<E, Cb>(
    connection: &mut rusqlite::Connection,
    tag_id: &[u8],
    callback: Cb,
) -> (outcome: Result<Member, IdentificationError<E>>) where
    Cb: FnOnce(u32, &[u8]) -> Result<(), E>,

    requires
        forall|method: u32, data: &[u8]| callback.requires((method, data)),
    ensures
        exists|fetched: Result<Option<TagMemberRow>, rusqlite::Error>, verdict: Result<(), E>|
            well_read(fetched) && explained_by(outcome, callback, fetched, verdict),
        !(outcome matches Err(IdentificationError::DatabaseError(_))) ==> holds(
            IDENTIFY_SQL@,
            seq![Cell::Bytes(tag_id@)],
        ),
{
    let fetched = first_row(connection, tag_id);
    let outcome = conclude(fetched, callback);
    proof {
        if challenge_of(fetched) is None {
            assert(well_read(fetched) && explained_by(
                outcome,
                callback,
                fetched,
                Ok::<(), E>(()),
            ));
        } else {
            let c = challenge_of(fetched).unwrap();
            let verdict = choose|verdict: Result<(), E>|
                answered(callback, c, verdict) && outcome == identification(fetched, verdict);
            assert(well_read(fetched) && explained_by(outcome, callback, fetched, verdict));
        }
    }
    outcome
}

} // verus!

use heimdall::member::{
    removed, updated, written, MemberRecord, StoreOperation, UpdateError, DELETE_SQL, INSERT_SQL,
    REPLACE_SQL, UPDATE_SQL,
};
use heimdall::schema::{Table, CREATE_MEMBERS_SQL, CREATE_TAGS_SQL};
use heimdall::Member;
use rusqlite::Connection;

fn sample() -> Member {
    Member {
        uid: 42,
        can_manage_users: false,
        ban_time: None,
        last_open_attempt: None,
        max_auto_inactive: 1800,
        last_enter_time: None,
        last_leave_time: None,
    }
}

fn busy() -> Member {
    Member {
        uid: 4_000_000_000,
        can_manage_users: true,
        ban_time: Some(1_700_000_000),
        last_open_attempt: Some(-5),
        max_auto_inactive: 60,
        last_enter_time: Some(i64::MAX),
        last_leave_time: Some(i64::MIN),
    }
}

fn open() -> Connection {
    let mut conn = Connection::open_in_memory().unwrap();
    heimdall::create_tables(&mut conn).unwrap();
    conn
}

fn count_members(conn: &Connection) -> i64 {
    conn.query_row("SELECT COUNT(*) FROM members", (), |row| row.get(0)).unwrap()
}

fn load(conn: &Connection, uid: u32) -> Option<Member> {
    let mut stmt = conn
        .prepare(
            "SELECT uid, manager, ban_time, last_attempt, max_auto, last_enter, last_leave
             FROM members WHERE uid = ?",
        )
        .unwrap();
    let mut rows = stmt.query((uid as i64,)).unwrap();
    rows.next().unwrap().map(|row| {
        Member::from_record(&MemberRecord {
            uid: row.get(0).unwrap(),
            manager: row.get(1).unwrap(),
            ban_time: row.get(2).unwrap(),
            last_attempt: row.get(3).unwrap(),
            max_auto: row.get(4).unwrap(),
            last_enter: row.get(5).unwrap(),
            last_leave: row.get(6).unwrap(),
        })
    })
}

#[test]
fn create_tables() {
    let mut conn = Connection::open_in_memory().unwrap();
    heimdall::create_tables(&mut conn).unwrap();
}

#[test]
fn create_tables_makes_both_tables_empty() {
    let conn = open();
    assert_eq!(count_members(&conn), 0);
    let tags: i64 = conn.query_row("SELECT COUNT(*) FROM tags", (), |row| row.get(0)).unwrap();
    assert_eq!(tags, 0);
}

#[test]
fn create_tables_can_be_repeated() {
    let mut conn = open();
    sample().insert(&mut conn).unwrap();
    heimdall::create_tables(&mut conn).unwrap();
    assert_eq!(count_members(&conn), 1);
    assert_eq!(load(&conn, 42), Some(sample()));
}

#[test]
fn create_tables_completes_a_partial_provisioning() {
    let mut conn = Connection::open_in_memory().unwrap();
    conn.execute(CREATE_TAGS_SQL, ()).unwrap();
    assert!(sample().insert(&mut conn).is_err());
    heimdall::create_tables(&mut conn).unwrap();
    sample().insert(&mut conn).unwrap();
    assert_eq!(count_members(&conn), 1);
}

#[test]
fn create_tables_fails_where_the_store_refuses() {
    let mut conn = Connection::open_in_memory().unwrap();
    conn.execute_batch("PRAGMA query_only = ON").unwrap();
    assert!(heimdall::create_tables(&mut conn).is_err());
    conn.execute_batch("PRAGMA query_only = OFF").unwrap();
    heimdall::create_tables(&mut conn).unwrap();
    assert_eq!(count_members(&conn), 0);
}

#[test]
fn statements_of_the_operations() {
    assert_eq!(StoreOperation::Insert.statement(), INSERT_SQL);
    assert_eq!(StoreOperation::Replace.statement(), REPLACE_SQL);
    assert_eq!(StoreOperation::Update.statement(), UPDATE_SQL);
    assert_eq!(StoreOperation::Delete.statement(), DELETE_SQL);
    assert_eq!(Table::Tags.creation(), CREATE_TAGS_SQL);
    assert_eq!(Table::Members.creation(), CREATE_MEMBERS_SQL);
    assert_eq!(heimdall::identify::identify_statement(), heimdall::identify::IDENTIFY_SQL);
    assert!(INSERT_SQL.starts_with("INSERT INTO members"));
    assert!(REPLACE_SQL.starts_with("REPLACE INTO members"));
    assert!(UPDATE_SQL.starts_with("UPDATE members"));
    assert!(DELETE_SQL.starts_with("DELETE FROM members"));
    assert_eq!(sample().key(), 42);
    assert_eq!(busy().key(), 4_000_000_000);
}

#[test]
fn table_ops() {
    let mut conn = Connection::open_in_memory().unwrap();
    heimdall::create_tables(&mut conn).unwrap();

    let member = Member {
        uid: 42,
        can_manage_users: false,
        ban_time: None,
        last_open_attempt: None,
        max_auto_inactive: 1800,
        last_enter_time: None,
        last_leave_time: None,
    };

    member.insert(&mut conn).unwrap();
    member.insert(&mut conn).unwrap_err();

    member.replace(&mut conn).unwrap();

    assert!(member.delete(&mut conn).unwrap());
    assert!(!member.delete(&mut conn).unwrap());

    member.insert(&mut conn).unwrap();
    member.delete(&mut conn).unwrap();
}

#[test]
fn insert_then_load_gives_the_member_back() {
    let mut conn = open();
    sample().insert(&mut conn).unwrap();
    busy().insert(&mut conn).unwrap();
    assert_eq!(load(&conn, 42), Some(sample()));
    assert_eq!(load(&conn, 4_000_000_000), Some(busy()));
    assert_eq!(count_members(&conn), 2);
}

#[test]
fn insert_binds_each_column_in_its_place() {
    let mut conn = open();
    busy().insert(&mut conn).unwrap();
    let row: (i64, bool, Option<i64>, Option<i64>, i64, Option<i64>, Option<i64>) = conn
        .query_row(
            "SELECT uid, manager, ban_time, last_attempt, max_auto, last_enter, last_leave FROM members",
            (),
            |row| {
                Ok((
                    row.get(0)?,
                    row.get(1)?,
                    row.get(2)?,
                    row.get(3)?,
                    row.get(4)?,
                    row.get(5)?,
                    row.get(6)?,
                ))
            },
        )
        .unwrap();
    assert_eq!(
        row,
        (4_000_000_000, true, Some(1_700_000_000), Some(-5), 60, Some(i64::MAX), Some(i64::MIN))
    );
}

#[test]
fn second_insert_fails_and_keeps_the_first() {
    let mut conn = open();
    sample().insert(&mut conn).unwrap();
    let mut other = sample();
    other.max_auto_inactive = 7;
    assert!(other.insert(&mut conn).is_err());
    assert_eq!(count_members(&conn), 1);
    assert_eq!(load(&conn, 42), Some(sample()));
}

#[test]
fn replace_twice_leaves_one_row() {
    let mut conn = open();
    sample().replace(&mut conn).unwrap();
    let mut other = sample();
    other.can_manage_users = true;
    other.ban_time = Some(99);
    other.replace(&mut conn).unwrap();
    assert_eq!(count_members(&conn), 1);
    assert_eq!(load(&conn, 42), Some(other));
}

#[test]
fn update_overwrites_every_field() {
    let mut conn = open();
    sample().insert(&mut conn).unwrap();
    let changed = Member {
        uid: 42,
        can_manage_users: true,
        ban_time: Some(1),
        last_open_attempt: Some(2),
        max_auto_inactive: 3,
        last_enter_time: Some(4),
        last_leave_time: Some(5),
    };
    changed.update(&mut conn).unwrap();
    assert_eq!(load(&conn, 42), Some(changed));
    assert_eq!(count_members(&conn), 1);
}

#[test]
fn update_of_absent_member_is_reported() {
    let mut conn = open();
    assert!(matches!(sample().update(&mut conn), Err(UpdateError::NoSuchMember)));
    assert_eq!(count_members(&conn), 0);
}

#[test]
fn update_without_tables_is_a_database_error() {
    let mut conn = Connection::open_in_memory().unwrap();
    assert!(matches!(sample().update(&mut conn), Err(UpdateError::DatabaseError(_))));
}

#[test]
fn delete_is_true_once_per_insert() {
    let mut conn = open();
    let member = sample();
    assert!(!member.delete(&mut conn).unwrap());
    member.insert(&mut conn).unwrap();
    busy().insert(&mut conn).unwrap();
    assert!(member.delete(&mut conn).unwrap());
    assert_eq!(count_members(&conn), 1);
    assert_eq!(load(&conn, 4_000_000_000), Some(busy()));
    assert!(!member.delete(&mut conn).unwrap());
    assert!(!member.delete(&mut conn).unwrap());
    member.insert(&mut conn).unwrap();
    assert!(member.delete(&mut conn).unwrap());
    assert!(!member.delete(&mut conn).unwrap());
}

#[test]
fn store_operations_fail_without_tables() {
    let mut conn = Connection::open_in_memory().unwrap();
    assert!(sample().insert(&mut conn).is_err());
    assert!(sample().replace(&mut conn).is_err());
    assert!(sample().delete(&mut conn).is_err());
}

#[test]
fn exec_stmt_reports_changed_rows() {
    let conn = open();
    let member = sample();
    {
        let mut stmt = conn.prepare(heimdall::member::REPLACE_SQL).unwrap();
        assert_eq!(member.exec_stmt(&mut stmt).unwrap(), 1);
    }
    {
        let mut stmt = conn.prepare(heimdall::member::UPDATE_SQL).unwrap();
        assert_eq!(member.exec_stmt(&mut stmt).unwrap(), 1);
        assert_eq!(busy().exec_stmt(&mut stmt).unwrap(), 0);
    }
}

#[test]
fn record_round_trip() {
    for m in [sample(), busy()] {
        let rec = m.to_record();
        assert_eq!(Member::from_record(&rec), m);
    }
    let rec = busy().to_record();
    assert_eq!(rec.uid, 4_000_000_000);
    assert!(rec.manager);
    assert_eq!(rec.ban_time, Some(1_700_000_000));
    assert_eq!(rec.last_attempt, Some(-5));
    assert_eq!(rec.max_auto, 60);
    assert_eq!(rec.last_enter, Some(i64::MAX));
    assert_eq!(rec.last_leave, Some(i64::MIN));
}

#[test]
fn from_record_keeps_the_low_bits_of_uid() {
    let mut rec = sample().to_record();
    rec.uid = (1i64 << 32) + 5;
    assert_eq!(Member::from_record(&rec).uid, 5);
    rec.uid = -1;
    assert_eq!(Member::from_record(&rec).uid, u32::MAX);
}

#[test]
fn outcomes_follow_the_changed_row_count() {
    assert!(matches!(written(Ok(0)), Ok(())));
    assert!(matches!(written(Ok(1)), Ok(())));
    assert!(matches!(
        written(Err(rusqlite::Error::QueryReturnedNoRows)),
        Err(rusqlite::Error::QueryReturnedNoRows)
    ));
    assert!(matches!(updated(Ok(0)), Err(UpdateError::NoSuchMember)));
    assert!(matches!(updated(Ok(1)), Ok(())));
    assert!(matches!(updated(Ok(2)), Ok(())));
    assert!(matches!(
        updated(Err(rusqlite::Error::QueryReturnedNoRows)),
        Err(UpdateError::DatabaseError(rusqlite::Error::QueryReturnedNoRows))
    ));
    assert!(matches!(removed(Ok(0)), Ok(false)));
    assert!(matches!(removed(Ok(1)), Ok(true)));
    assert!(matches!(removed(Ok(2)), Ok(false)));
    assert!(matches!(
        removed(Err(rusqlite::Error::QueryReturnedNoRows)),
        Err(rusqlite::Error::QueryReturnedNoRows)
    ));
}

use picole_pixel::db::{Database, DbError};
use picole_pixel::rank_day::{Rank, RankDay};
use picole_pixel::user::User;

fn fresh_db() -> Database {
    Database::new(String::from("test.db"))
}

fn register(db: &mut Database, chat_id: i64, name: &str) -> User {
    let user = User::new(chat_id, String::from(name), None);
    let existed = db.add_user(user.clone());
    assert!(!existed);
    user
}

#[test]
fn user_default_hour_is_22() {
    let u = User::new(1, String::from("ana"), None);
    assert_eq!(u.get_hour(), 22);
    assert_eq!(u.get_chat_id(), 1);
    assert_eq!(u.get_username(), "ana");
}

#[test]
fn user_explicit_hour_kept() {
    let u = User::new(1, String::from("ana"), Some(7));
    assert_eq!(u.get_hour(), 7);
}

#[test]
fn user_out_of_range_hour_wrapped() {
    let u = User::new(1, String::from("ana"), Some(25));
    assert_eq!(u.get_hour(), 1);
    let v = User::new(1, String::from("ana"), Some(24));
    assert_eq!(v.get_hour(), 0);
}

#[test]
fn add_user_reports_existing_and_updates_name() {
    let mut db = fresh_db();
    register(&mut db, 5, "old-name");
    let again = User::new(5, String::from("new-name"), Some(9));
    let existed = db.add_user(again);
    assert!(existed);
    let stored = db.get_user_by_chat_id(5).unwrap();
    assert_eq!(stored.get_username(), "new-name");
    // re-registration refreshes the name but keeps the stored hour
    assert_eq!(stored.get_hour(), 22);
}

#[test]
fn get_user_miss_is_none() {
    let db = fresh_db();
    assert!(db.get_user_by_chat_id(404).is_none());
}

#[test]
fn create_then_get_time_round_trips() {
    let mut db = fresh_db();
    let user = register(&mut db, 7, "bob");
    let rd = RankDay::new(user, 1_000_000, 42);
    assert_eq!(db.add_rank_day(rd), Ok(()));
    assert_eq!(db.get_time(7, 42), Some(1_000_000));
    assert_eq!(db.get_rank(7, 42), Some(Rank::Unranked));
}

#[test]
fn create_for_unknown_user_fails() {
    let mut db = fresh_db();
    let stranger = User::new(99, String::from("ghost"), None);
    let rd = RankDay::new(stranger, 5, 1);
    assert_eq!(db.add_rank_day(rd), Err(DbError::UserNotFound));
    assert_eq!(db.get_time(99, 1), None);
}

#[test]
fn create_twice_same_handle_fails() {
    let mut db = fresh_db();
    let user = register(&mut db, 7, "bob");
    let rd = RankDay::new(user.clone(), 100, 42);
    assert_eq!(db.add_rank_day(rd), Ok(()));
    let dup = RankDay::new(user, 200, 42);
    assert_eq!(db.add_rank_day(dup), Err(DbError::HandleInUse));
    // the first record is untouched
    assert_eq!(db.get_time(7, 42), Some(100));
}

#[test]
fn set_rank_then_read_back() {
    let mut db = fresh_db();
    let user = register(&mut db, 7, "bob");
    let rd = RankDay::new(user, 100, 42);
    db.add_rank_day(rd).unwrap();

    assert_eq!(db.update_rank(7, 42, Rank::Ranked(3)), Ok(()));
    assert_eq!(db.get_rank(7, 42), Some(Rank::Ranked(3)));

    // reopen clears the rating, at the same handle
    assert_eq!(db.update_rank(7, 42, Rank::Unranked), Ok(()));
    assert_eq!(db.get_rank(7, 42), Some(Rank::Unranked));
    // the creation time is untouched by rating and reopening
    assert_eq!(db.get_time(7, 42), Some(100));
}

#[test]
fn set_rank_unknown_handle_fails() {
    let mut db = fresh_db();
    register(&mut db, 7, "bob");
    assert_eq!(db.update_rank(7, 42, Rank::Ranked(1)), Err(DbError::NotFound));
}

#[test]
fn set_hour_validates_and_updates() {
    let mut db = fresh_db();
    register(&mut db, 7, "bob");
    assert_eq!(db.set_hour(7, 24), Err(DbError::InvalidHour));
    assert_eq!(db.set_hour(8, 10), Err(DbError::NotFound));
    assert_eq!(db.set_hour(7, 10), Ok(()));
    assert_eq!(db.get_user_by_chat_id(7).unwrap().get_hour(), 10);
}

#[test]
fn get_hours_snapshots_in_order() {
    let mut db = fresh_db();
    register(&mut db, 1, "ana");
    register(&mut db, 2, "bob");
    db.set_hour(2, 6).unwrap();
    assert_eq!(db.get_hours(), vec![(1, 22), (2, 6)]);
}

#[test]
fn rank_day_accessors() {
    let user = User::new(3, String::from("cora"), Some(8));
    let rd = RankDay::new(user, 777, 21);
    assert_eq!(rd.get_rank(), Rank::Unranked);
    assert_eq!(rd.get_time(), 777);
    assert_eq!(rd.get_id_msg(), 21);
    assert_eq!(rd.get_user().get_chat_id(), 3);
}

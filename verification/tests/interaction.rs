use picole_pixel::db::Database;
use picole_pixel::interact::{handle_callback, handle_payload, parse_callback, Callback, Effect};
use picole_pixel::rank_day::{Rank, RankDay};
use picole_pixel::user::User;

fn db_with_record(chat_id: i64, time: i64, id_msg: i32) -> Database {
    let mut db = Database::new(String::from("test.db"));
    let user = User::new(chat_id, String::from("ana"), None);
    db.add_user(user.clone());
    db.add_rank_day(RankDay::new(user, time, id_msg)).unwrap();
    db
}

#[test]
fn parse_digits() {
    assert_eq!(parse_callback("0"), Some(Callback::Rank(0)));
    assert_eq!(parse_callback("1"), Some(Callback::Rank(1)));
    assert_eq!(parse_callback("2"), Some(Callback::Rank(2)));
    assert_eq!(parse_callback("3"), Some(Callback::Rank(3)));
    assert_eq!(parse_callback("4"), Some(Callback::Rank(4)));
    assert_eq!(parse_callback("5"), Some(Callback::Rank(5)));
}

#[test]
fn parse_actions() {
    assert_eq!(parse_callback("Edit"), Some(Callback::Edit));
    assert_eq!(parse_callback("Add comment"), Some(Callback::AddComment));
}

#[test]
fn parse_rejects_malformed_payloads() {
    assert_eq!(parse_callback("6"), None);
    assert_eq!(parse_callback("9"), None);
    assert_eq!(parse_callback(""), None);
    assert_eq!(parse_callback("33"), None);
    assert_eq!(parse_callback("edit"), None);
    assert_eq!(parse_callback("Add  comment"), None);
    assert_eq!(parse_callback("x"), None);
}

#[test]
fn scenario_rank_callback_records_and_confirms() {
    // callback "3" on the outstanding prompt: the record moves to Ranked(3)
    // and the prompt is replaced by the confirmation
    let mut db = db_with_record(1, 1_000, 500);
    let eff = handle_payload(&mut db, 1, 500, "3");
    assert_eq!(eff, Effect::ShowResult { time: 1_000, rank: 3 });
    assert_eq!(db.get_rank(1, 500), Some(Rank::Ranked(3)));
}

#[test]
fn scenario_edit_callback_reopens_at_same_handle() {
    // an "Edit" callback after a rating: the record reopens and the full
    // keyboard is redisplayed at the same handle
    let mut db = db_with_record(1, 1_000, 500);
    handle_payload(&mut db, 1, 500, "4");
    let eff = handle_payload(&mut db, 1, 500, "Edit");
    assert_eq!(eff, Effect::ShowPrompt { time: 1_000 });
    assert_eq!(db.get_rank(1, 500), Some(Rank::Unranked));
}

#[test]
fn add_comment_is_acknowledged_without_change() {
    let mut db = db_with_record(1, 1_000, 500);
    handle_payload(&mut db, 1, 500, "2");
    let eff = handle_payload(&mut db, 1, 500, "Add comment");
    assert_eq!(eff, Effect::AckOnly);
    assert_eq!(db.get_rank(1, 500), Some(Rank::Ranked(2)));
}

#[test]
fn stale_handle_is_acknowledged_without_change() {
    let mut db = db_with_record(1, 1_000, 500);
    let eff = handle_callback(&mut db, 1, 999, Callback::Rank(3));
    assert_eq!(eff, Effect::AckOnly);
    let eff = handle_callback(&mut db, 2, 500, Callback::Edit);
    assert_eq!(eff, Effect::AckOnly);
    assert_eq!(db.get_rank(1, 500), Some(Rank::Unranked));
}

#[test]
fn malformed_payload_changes_nothing() {
    let mut db = db_with_record(1, 1_000, 500);
    let eff = handle_payload(&mut db, 1, 500, "7");
    assert_eq!(eff, Effect::AckOnly);
    assert_eq!(db.get_rank(1, 500), Some(Rank::Unranked));
}

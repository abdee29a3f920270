use picole_pixel::db::Database;
use picole_pixel::rank_day::{Rank, RankDay};
use picole_pixel::schedule::{clock_hour, clock_minute, due_users, Scheduler};
use picole_pixel::user::User;

#[test]
fn due_only_at_minute_zero() {
    let users = vec![(1, 22), (2, 22)];
    assert_eq!(due_users(&users, 22, 1), Vec::<i64>::new());
    assert_eq!(due_users(&users, 22, 59), Vec::<i64>::new());
    assert_eq!(due_users(&users, 22, 0), vec![1, 2]);
}

#[test]
fn due_only_on_matching_hour() {
    let users = vec![(1, 22), (2, 10), (3, 22)];
    assert_eq!(due_users(&users, 22, 0), vec![1, 3]);
    assert_eq!(due_users(&users, 10, 0), vec![2]);
    assert_eq!(due_users(&users, 9, 0), Vec::<i64>::new());
}

#[test]
fn clock_values_wrap_into_range() {
    assert_eq!(clock_hour(22), 22);
    assert_eq!(clock_hour(24), 0);
    assert_eq!(clock_hour(47), 23);
    assert_eq!(clock_minute(0), 0);
    assert_eq!(clock_minute(125), 5);
}

#[test]
fn tick_guard_refuses_same_minute_twice() {
    let mut sched = Scheduler::new();
    assert!(sched.begin_tick(1000));
    // a double fire of the same tick boundary must not go through again
    assert!(!sched.begin_tick(1000));
    assert!(sched.begin_tick(1001));
}

#[test]
fn scenario_default_hour_tick_creates_one_open_record() {
    // a user registered with the default hour is due at 22:00, and the tick
    // drives exactly one record, persisted with no rating yet
    let mut db = Database::new(String::from("test.db"));
    let user = User::new(1, String::from("ana"), None);
    db.add_user(user.clone());

    let mut sched = Scheduler::new();
    let now = 1_700_000_000 + 3; // a few seconds past the minute boundary
    let minute_id = now / 60;

    assert!(sched.begin_tick(minute_id));
    let due = due_users(&db.get_hours(), 22, 0);
    assert_eq!(due, vec![1]);

    let mut prompts_sent = 0;
    for chat_id in due {
        // the dispatcher accepted the prompt and returned handle 500
        prompts_sent += 1;
        let owner = db.get_user_by_chat_id(chat_id).unwrap();
        db.add_rank_day(RankDay::new(owner, now, 500)).unwrap();
    }
    assert_eq!(prompts_sent, 1);
    assert_eq!(db.get_rank(1, 500), Some(Rank::Unranked));
    assert_eq!(db.get_time(1, 500), Some(now));

    // the same tick boundary fired again: the guard stops the whole batch
    assert!(!sched.begin_tick(minute_id));
}

#[test]
fn scenario_two_users_same_hour_independent_records() {
    // two users share hour 22; both get records with distinct handles, and
    // rating one record never touches the other
    let mut db = Database::new(String::from("test.db"));
    db.add_user(User::new(1, String::from("ana"), None));
    db.add_user(User::new(2, String::from("bob"), None));

    let due = due_users(&db.get_hours(), 22, 0);
    assert_eq!(due, vec![1, 2]);

    let now = 1_700_000_000;
    let mut handle = 500;
    for chat_id in due {
        let owner = db.get_user_by_chat_id(chat_id).unwrap();
        db.add_rank_day(RankDay::new(owner, now, handle)).unwrap();
        handle += 1;
    }

    db.update_rank(1, 500, Rank::Ranked(5)).unwrap();
    assert_eq!(db.get_rank(1, 500), Some(Rank::Ranked(5)));
    assert_eq!(db.get_rank(2, 501), Some(Rank::Unranked));

    db.update_rank(2, 501, Rank::Ranked(0)).unwrap();
    assert_eq!(db.get_rank(2, 501), Some(Rank::Ranked(0)));
    assert_eq!(db.get_rank(1, 500), Some(Rank::Ranked(5)));
}

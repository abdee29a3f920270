use picole_pixel::calendar::{get_month, get_weekday, prompt_text_for, result_text_for};

#[test]
fn month_names_cover_all_twelve() {
    let names = [
        "January", "February", "March", "April", "May", "June", "July", "August", "September",
        "October", "November", "December",
    ];
    for (i, name) in names.iter().enumerate() {
        assert_eq!(get_month(i as u32 + 1), Some(*name));
    }
}

#[test]
fn month_out_of_range_is_rejected() {
    assert_eq!(get_month(0), None);
    assert_eq!(get_month(13), None);
    assert_eq!(get_month(255), None);
}

#[test]
fn weekday_names_cover_the_week() {
    let names = ["Mon", "Tue", "Wed", "Thu", "Fri", "Sat", "Sun"];
    for (i, name) in names.iter().enumerate() {
        assert_eq!(get_weekday(i as u8), Some(*name));
    }
    assert_eq!(get_weekday(7), None);
}

#[test]
fn prompt_text_renders_the_civil_date() {
    // 1431648000 is 2015-05-15 00:00:00 UTC, a Friday
    let text = prompt_text_for(1_431_648_000).unwrap();
    assert_eq!(text, "How drunk are you Fri 15 May 2015 ?");
}

#[test]
fn prompt_text_renders_single_digit_days() {
    // 947638923 is 2000-01-12 01:02:03 UTC, a Wednesday
    let text = prompt_text_for(947_638_923).unwrap();
    assert_eq!(text, "How drunk are you Wed 12 January 2000 ?");
}

#[test]
fn result_text_renders_date_and_rating() {
    let text = result_text_for(1_431_648_000, 4).unwrap();
    assert_eq!(text, "Fri 15 May 2015 you put a 4 on the Picole Pixel");
}

#[test]
fn prompt_text_owed_across_the_promised_band() {
    // success is promised from the epoch through the last second of 9999
    let start = prompt_text_for(0).unwrap();
    assert_eq!(start, "How drunk are you Thu 1 January 1970 ?");
    let end = prompt_text_for(253_402_300_799).unwrap();
    assert_eq!(end, "How drunk are you Fri 31 December 9999 ?");
}

#[test]
fn result_text_renders_rating_zero() {
    let text = result_text_for(947_638_923, 0).unwrap();
    assert_eq!(text, "Wed 12 January 2000 you put a 0 on the Picole Pixel");
}

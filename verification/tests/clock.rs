use pinelog::clock::stamp_now;
use pinelog::settings::Timestamp;

fn is_time(text: &str) -> bool {
    let bytes = text.as_bytes();
    bytes.len() == 8
        && bytes.iter().enumerate().all(|(i, b)| match i {
            2 | 5 => *b == b':',
            _ => b.is_ascii_digit(),
        })
}

fn is_date(text: &str) -> bool {
    let bytes = text.as_bytes();
    if bytes.len() < 10 {
        return false;
    }
    let (year, rest) = bytes.split_at(bytes.len() - 6);
    let year_digits = match year[0] {
        b'+' | b'-' => &year[1..],
        _ => year,
    };
    year_digits.len() >= 4
        && (year_digits.len() == year.len()) == (year.len() == 4)
        && year_digits.iter().all(|b| b.is_ascii_digit())
        && rest.iter().enumerate().all(|(i, b)| match i {
            0 | 3 => *b == b'-',
            _ => b.is_ascii_digit(),
        })
}

#[test]
fn patterns_are_the_strftime_forms() {
    assert_eq!(Timestamp::DATE.format_pattern(), "%Y-%m-%d");
    assert_eq!(Timestamp::TIME.format_pattern(), "%H:%M:%S");
    assert_eq!(Timestamp::FULL.format_pattern(), "%Y-%m-%d %H:%M:%S");
}

#[test]
fn time_stamp_is_hours_minutes_seconds() {
    let stamp = Timestamp::TIME.now();
    assert!(is_time(&stamp), "unexpected time {:?}", stamp);
    let hour: u32 = stamp[0..2].parse().unwrap();
    let minute: u32 = stamp[3..5].parse().unwrap();
    let second: u32 = stamp[6..8].parse().unwrap();
    assert!(hour < 24 && minute < 60 && second <= 60);
}

#[test]
fn date_stamp_is_year_month_day() {
    let stamp = Timestamp::DATE.now();
    assert!(is_date(&stamp), "unexpected date {:?}", stamp);
    let month: u32 = stamp[stamp.len() - 5..stamp.len() - 3].parse().unwrap();
    let day: u32 = stamp[stamp.len() - 2..].parse().unwrap();
    assert!((1..=12).contains(&month) && (1..=31).contains(&day));
}

#[test]
fn full_stamp_is_date_space_time() {
    let stamp = Timestamp::FULL.now();
    assert!(stamp.len() >= 19);
    let (date, rest) = stamp.split_at(stamp.len() - 9);
    assert!(is_date(date), "unexpected date {:?}", date);
    assert!(rest.starts_with(' '));
    assert!(is_time(&rest[1..]), "unexpected time {:?}", rest);
}

#[test]
fn stamp_is_empty_without_a_selector() {
    assert_eq!(stamp_now(None), "");
}

#[test]
fn stamp_follows_the_selector() {
    assert!(is_time(&stamp_now(Some(Timestamp::TIME))));
    assert!(is_date(&stamp_now(Some(Timestamp::DATE))));
    assert!(stamp_now(Some(Timestamp::FULL)).contains(' '));
}

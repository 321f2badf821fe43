use airac_updater::clock::Timestamp;
use airac_updater::message::{Level, Message};

#[test]
fn backup_stamp_pads_every_field() {
    let t = Timestamp { year: 2025, month: 3, day: 7, hour: 4, minute: 5, second: 6 };
    assert_eq!(t.backup_stamp(), "20250307_040506");
    let t = Timestamp { year: 1999, month: 12, day: 31, hour: 23, minute: 59, second: 59 };
    assert_eq!(t.backup_stamp(), "19991231_235959");
}

#[test]
fn messages_carry_content_level_and_time() {
    let m = Message::info("hello".to_string());
    assert_eq!(m.content, "hello");
    assert_eq!(m.level, Level::Info);
    assert!(m.time.year >= 1970);
    assert!((1..=12).contains(&m.time.month));
    assert!((1..=31).contains(&m.time.day));
    assert!(m.time.hour < 24 && m.time.minute < 60 && m.time.second < 60);
    assert_eq!(Message::debug("d".to_string()).level, Level::Debug);
    assert_eq!(Message::error("e".to_string()).level, Level::Error);
    assert_eq!(Message::new("w".to_string(), Level::Warn).level, Level::Warn);
}

//! The map that rooms and messages are kept in.
use iamb_worker::store::{MessageKey, MessageTimeStamp};
use iamb_worker::table::{Key, Table};

#[test]
fn values_are_found_by_their_keys() {
    let mut table: Table<String, u32> = Table::new();
    assert_eq!(table.get(&"a".to_string()), None);
    *table.entry("a".to_string(), 1) += 10;
    *table.entry("b".to_string(), 2) += 20;
    assert_eq!(table.get(&"a".to_string()), Some(&11));
    assert_eq!(table.get(&"b".to_string()), Some(&22));
}

#[test]
fn a_value_that_is_there_stays_there() {
    let mut table: Table<String, u32> = Table::new();
    table.entry("a".to_string(), 1);
    assert_eq!(*table.entry("a".to_string(), 5), 1);
}

#[test]
fn values_are_taken_out() {
    let mut table: Table<String, u32> = Table::new();
    table.entry("a".to_string(), 1);
    table.entry("b".to_string(), 2);
    table.remove(&"a".to_string());
    table.remove(&"a".to_string());
    assert_eq!(table.get(&"a".to_string()), None);
    assert_eq!(table.get(&"b".to_string()), Some(&2));
}

#[test]
fn messages_are_told_apart_by_time_and_event() {
    let key = |timestamp, id: &str| MessageKey { timestamp, event_id: id.to_string() };
    let echo = key(MessageTimeStamp::LocalEcho, "$1");
    assert!(echo.same(&key(MessageTimeStamp::LocalEcho, "$1")));
    assert!(!echo.same(&key(MessageTimeStamp::LocalEcho, "$2")));
    assert!(!echo.same(&key(MessageTimeStamp::OriginServer(0), "$1")));
    assert!(!key(MessageTimeStamp::OriginServer(1), "$1")
        .same(&key(MessageTimeStamp::OriginServer(2), "$1")));
}

//! Picking messages out of a room's history.
use iamb_worker::timeline::{keep_messages, room_messages, TimelineKind};

fn event(kind: &str, state_key: &str, content: &str) -> String {
    format!(
        "{{\"type\":\"{}\",{}\"event_id\":\"$1:example.org\",\"sender\":\"@a:example.org\",\
         \"origin_server_ts\":5,\"room_id\":\"!r:example.org\",\"content\":{}}}",
        kind, state_key, content
    )
}

fn text(body: &str) -> String {
    event(
        "m.room.message",
        "",
        &format!("{{\"msgtype\":\"m.text\",\"body\":\"{}\"}}", body),
    )
}

#[test]
fn only_messages_are_kept() {
    let first = text("one");
    let second = text("two");
    let sticker = event(
        "m.sticker",
        "",
        "{\"body\":\"s\",\"info\":{},\"url\":\"mxc://example.org/x\"}",
    );
    let topic = event("m.room.topic", "\"state_key\":\"\",", "{\"topic\":\"t\"}");
    let chunk = vec![
        topic,
        first.clone(),
        "not json".to_string(),
        sticker,
        "{}".to_string(),
        second.clone(),
    ];
    assert_eq!(room_messages(&chunk), vec![first, second]);
}

#[test]
fn an_empty_page_has_no_messages() {
    assert_eq!(room_messages(&vec![]), Vec::<String>::new());
}

#[test]
fn messages_are_kept_in_order() {
    let chunk = vec!["a".to_string(), "b".to_string(), "c".to_string(), "d".to_string()];
    let kinds = vec![
        TimelineKind::RoomMessage,
        TimelineKind::State,
        TimelineKind::OtherMessageLike,
        TimelineKind::RoomMessage,
    ];
    assert_eq!(keep_messages(&chunk, &kinds), vec!["a".to_string(), "d".to_string()]);

    let kinds = vec![TimelineKind::Invalid; 4];
    assert!(keep_messages(&chunk, &kinds).is_empty());
}

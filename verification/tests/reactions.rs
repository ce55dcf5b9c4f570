//! Reactions to what the server sends, and what the program knows afterwards.
use iamb_worker::base::{ClientError, DisplayName, ErrorKind};
use iamb_worker::handlers::{
    handlers, on_message, on_room_name, on_typing, take_without, Handler, RoomNameEvent, Source,
    Stage,
};
use iamb_worker::reaction::{
    Ask, Change, Flow, FoundVerification, Notice, Reaction, ReactionStep, Reply,
};
use iamb_worker::store::{
    Application, Message, MessageKey, MessageKind, MessageTimeStamp, RoomMessageEvent,
};

fn s(text: &str) -> String {
    text.to_string()
}

fn message(id: &str, at: u64) -> RoomMessageEvent {
    RoomMessageEvent {
        event_id: s(id),
        sender: s("@a:x"),
        origin_server_ts: at,
        kind: MessageKind::Message,
        json: s("{\"content\":{\"msgtype\":\"m.text\",\"body\":\"hi\"}}"),
    }
}

fn request(id: &str) -> RoomMessageEvent {
    RoomMessageEvent {
        event_id: s(id),
        sender: s("@a:x"),
        origin_server_ts: 3,
        kind: MessageKind::VerificationRequest,
        json: s("{\"content\":{\"msgtype\":\"m.key.verification.request\"}}"),
    }
}

fn key(timestamp: MessageTimeStamp, id: &str) -> MessageKey {
    MessageKey { timestamp, event_id: s(id) }
}

fn flow() -> Flow {
    Flow { user_id: s("@a:x"), flow_id: s("$f") }
}

fn perform(step: ReactionStep, ask: Ask) -> Reaction {
    match step {
        ReactionStep::Perform(reaction, asked) => {
            assert_eq!(asked, ask);
            reaction
        },
        ReactionStep::Done(change) => panic!("the reaction is over: {:?}", change),
    }
}

fn app() -> Application {
    Application::new(s("@me:x"))
}

#[test]
fn handlers_are_added_in_order() {
    assert_eq!(
        handlers(),
        vec![
            Handler::Typing,
            Handler::RoomName,
            Handler::Message,
            Handler::Verification(Source::Room, Stage::Start),
            Handler::Verification(Source::Room, Stage::Key),
            Handler::Verification(Source::Room, Stage::Done),
            Handler::VerificationRequest,
            Handler::Verification(Source::ToDevice, Stage::Start),
            Handler::Verification(Source::ToDevice, Stage::Key),
            Handler::Verification(Source::ToDevice, Stage::Done),
        ]
    );
}

#[test]
fn the_own_user_is_never_shown_typing() {
    let mut app = app();
    on_typing(&mut app, s("!r:x"), vec![s("@a:x"), s("@me:x"), s("@b:x"), s("@me:x")]);
    assert_eq!(app.room(&s("!r:x")).unwrap().typing, vec![s("@a:x"), s("@b:x")]);

    on_typing(&mut app, s("!r:x"), vec![s("@me:x")]);
    assert!(app.room(&s("!r:x")).unwrap().typing.is_empty());
    assert_eq!(take_without(&vec![], &s("@me:x")), Vec::<String>::new());
}

#[test]
fn a_room_gets_its_name() {
    let mut app = app();
    on_room_name(&mut app, s("!r:x"), RoomNameEvent::Original(Some(s("R"))));
    assert_eq!(app.room(&s("!r:x")).unwrap().name, Some(s("R")));

    on_room_name(&mut app, s("!r:x"), RoomNameEvent::Original(None));
    on_room_name(&mut app, s("!r:x"), RoomNameEvent::Redacted);
    assert_eq!(app.room(&s("!r:x")).unwrap().name, Some(s("R")));

    on_room_name(&mut app, s("!other:x"), RoomNameEvent::Redacted);
    assert_eq!(app.room(&s("!other:x")), None);
}

#[test]
fn a_message_takes_the_place_of_its_echo() {
    let mut app = app();
    let room = s("!r:x");
    let info = app.get_room_info(room.clone());
    info.insert_message(
        key(MessageTimeStamp::LocalEcho, "$1"),
        Message { room_id: room.clone(), event: message("$1", 0) },
    );
    info.insert_message(
        key(MessageTimeStamp::LocalEcho, "$2"),
        Message { room_id: room.clone(), event: message("$2", 0) },
    );

    on_message(&mut app, room.clone(), Ok(DisplayName::Named(s("R"))), message("$1", 5));

    let info = app.room(&room).unwrap();
    assert_eq!(info.name, Some(s("R")));
    assert_eq!(info.messages.get(&key(MessageTimeStamp::LocalEcho, "$1")), None);
    assert!(info.messages.get(&key(MessageTimeStamp::LocalEcho, "$2")).is_some());
    assert_eq!(
        info.messages.get(&key(MessageTimeStamp::OriginServer(5), "$1")),
        Some(&Message { room_id: room.clone(), event: message("$1", 5) })
    );
}

#[test]
fn a_message_that_arrives_twice_is_there_once() {
    let mut once = app();
    on_message(&mut once, s("!r:x"), Ok(DisplayName::Empty), message("$1", 5));
    let mut twice = app();
    on_message(&mut twice, s("!r:x"), Ok(DisplayName::Empty), message("$1", 5));
    on_message(&mut twice, s("!r:x"), Ok(DisplayName::Empty), message("$1", 5));
    assert_eq!(once, twice);
}

#[test]
fn a_message_sets_the_name_that_the_room_is_shown_under() {
    let mut app = app();
    let room = s("!r:x");
    for (name, shown) in vec![
        (DisplayName::Named(s("n")), "n"),
        (DisplayName::Aliased(s("a")), "a"),
        (DisplayName::Calculated(s("c")), "c"),
        (DisplayName::EmptyWas(s("w")), "Empty Room (was w)"),
        (DisplayName::Empty, "Empty Room"),
    ] {
        on_message(&mut app, room.clone(), Ok(name), message("$1", 5));
        assert_eq!(app.room(&room).unwrap().name, Some(s(shown)));
    }
    let error = ClientError { kind: ErrorKind::Store, message: s("no") };
    on_message(&mut app, room.clone(), Err(error), message("$1", 5));
    assert_eq!(app.room(&room).unwrap().name, None);
}

#[test]
fn other_rooms_stay_as_they_are() {
    let mut app = app();
    on_room_name(&mut app, s("!other:x"), RoomNameEvent::Original(Some(s("O"))));
    on_typing(&mut app, s("!r:x"), vec![s("@a:x")]);
    on_message(&mut app, s("!r:x"), Ok(DisplayName::Empty), message("$1", 5));
    on_room_name(&mut app, s("!r:x"), RoomNameEvent::Original(Some(s("R"))));
    let other = app.room(&s("!other:x")).unwrap();
    assert_eq!(other.name, Some(s("O")));
    assert!(other.typing.is_empty());
    assert_eq!(app.user_id(), "@me:x");
}

#[test]
fn a_plain_message_is_kept_after_its_room_was_named() {
    let reaction = perform(
        Notice::Message(s("!r:x"), message("$1", 5)).start(),
        Ask::DisplayName(s("!r:x")),
    );
    assert_eq!(
        reaction.step(Reply::Name(Ok(DisplayName::Empty))),
        ReactionStep::Done(Change::Message(s("!r:x"), Ok(DisplayName::Empty), message("$1", 5)))
    );
}

#[test]
fn a_redacted_message_is_kept_too() {
    let mut event = message("$1", 5);
    event.kind = MessageKind::Redacted;
    let reaction = perform(
        Notice::Message(s("!r:x"), event).start(),
        Ask::DisplayName(s("!r:x")),
    );
    assert!(matches!(
        reaction.step(Reply::Name(Ok(DisplayName::Empty))),
        ReactionStep::Done(Change::Message(_, _, RoomMessageEvent {
            kind: MessageKind::Redacted,
            ..
        }))
    ));
}

#[test]
fn a_request_in_a_room_is_accepted_if_it_is_known() {
    let asked = Flow { user_id: s("@a:x"), flow_id: s("$1") };
    let kept = || {
        ReactionStep::Done(Change::Message(s("!r:x"), Ok(DisplayName::Empty), request("$1")))
    };
    let find = || {
        let reaction = perform(
            Notice::Message(s("!r:x"), request("$1")).start(),
            Ask::DisplayName(s("!r:x")),
        );
        perform(
            reaction.step(Reply::Name(Ok(DisplayName::Empty))),
            Ask::FindRequest(asked.clone()),
        )
    };
    assert_eq!(find().step(Reply::Request(false)), kept());
    let reaction = perform(find().step(Reply::Request(true)), Ask::AcceptRequest(asked.clone()));
    assert_eq!(reaction.step(Reply::Accepted), kept());
}

#[test]
fn a_request_of_the_device_is_accepted() {
    let reaction = perform(
        Notice::VerificationRequest(flow()).start(),
        Ask::FindRequest(flow()),
    );
    let reaction = perform(reaction.step(Reply::Request(true)), Ask::AcceptRequest(flow()));
    assert_eq!(reaction.step(Reply::Accepted), ReactionStep::Done(Change::Nothing));
}

#[test]
fn verifications_are_shown_at_every_stage() {
    for source in [Source::Room, Source::ToDevice] {
        for stage in [Stage::Start, Stage::Key, Stage::Done] {
            let find = || {
                perform(
                    Notice::Verification(source, stage, flow()).start(),
                    Ask::FindVerification(flow()),
                )
            };
            for found in [FoundVerification::Nothing, FoundVerification::Other] {
                assert_eq!(
                    find().step(Reply::Verification(found)),
                    ReactionStep::Done(Change::Nothing)
                );
            }
            let mut step = find().step(Reply::Verification(FoundVerification::Sas));
            if stage == Stage::Start {
                let reaction = perform(step, Ask::AcceptVerification(flow()));
                step = reaction.step(Reply::Accepted);
            }
            assert_eq!(step, ReactionStep::Done(Change::Verification(flow())));
        }
    }
}

#[test]
fn changes_are_made() {
    let mut app = app();
    let step = Notice::Typing(s("!r:x"), vec![s("@a:x"), s("@me:x")]).start();
    match step {
        ReactionStep::Done(change) => assert_eq!(change.apply(&mut app), None),
        _ => panic!("typing asks for nothing"),
    }
    let step = Notice::RoomName(s("!r:x"), RoomNameEvent::Original(Some(s("R")))).start();
    match step {
        ReactionStep::Done(change) => assert_eq!(change.apply(&mut app), None),
        _ => panic!("a name asks for nothing"),
    }
    let info = app.room(&s("!r:x")).unwrap();
    assert_eq!(info.typing, vec![s("@a:x")]);
    assert_eq!(info.name, Some(s("R")));

    let change = Change::Message(s("!r:x"), Ok(DisplayName::Named(s("M"))), message("$1", 5));
    assert_eq!(change.apply(&mut app), None);
    assert_eq!(app.room(&s("!r:x")).unwrap().name, Some(s("M")));
    assert_eq!(app.room(&s("!r:x")).unwrap().typing, vec![s("@a:x")]);

    assert_eq!(Change::Verification(flow()).apply(&mut app), Some(flow()));
    assert_eq!(Change::Nothing.apply(&mut app), None);
}

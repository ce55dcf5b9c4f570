//! The operations of the worker, one answer of the client after the other.
use iamb_worker::base::{
    ClientError, DisplayName, ErrorKind, Failure, IambError, InfoMessage, LoginStyle,
    MemberEvent, Room, RoomMember, Session, SetRoomField, SpaceChild, TextMessage, UIError, VerifyAction,
};
use iamb_worker::client::{
    Action, CreateRoom, Direction, Event, MessagesRequest, RoomPreset, SpaceHierarchyRequest,
    StateContent, Step, VerificationMethod, Visibility,
};
use iamb_worker::ident::NameKind;
use iamb_worker::ops::direct::{DirectMessage, JoinRoom};
use iamb_worker::ops::listing::{Listing, RoomListing};
use iamb_worker::ops::login::LoginAndSync;
use iamb_worker::ops::message::SendMessage;
use iamb_worker::ops::room::{
    GetRoom, LoadOlder, Members, SetRoom, SpaceMembers, TypingNotice,
};
use iamb_worker::ops::verify::{Verify, VerifyRequest};

fn s(text: &str) -> String {
    text.to_string()
}

fn room(id: &str, is_space: bool, is_direct: bool) -> Room {
    Room { room_id: s(id), is_space, is_direct }
}

fn error(message: &str) -> ClientError {
    ClientError { kind: ErrorKind::Http, message: s(message) }
}

fn reported(message: &str) -> UIError {
    UIError::Application(IambError::Client(error(message)))
}

fn unknown(id: &str) -> UIError {
    UIError::Application(IambError::UnknownRoom(s(id)))
}

fn named(name: &str) -> DisplayName {
    DisplayName::Named(s(name))
}

fn perform<O, R>(step: Step<O, R>, action: Action) -> O {
    match step {
        Step::Perform(op, asked) => {
            assert_eq!(asked, action);
            op
        },
        Step::Done(_) => panic!("the operation is over"),
    }
}

fn done<O, R>(step: Step<O, R>) -> R {
    match step {
        Step::Perform(_, asked) => panic!("the operation asks for {:?}", asked),
        Step::Done(result) => result,
    }
}

fn joined() -> Vec<Room> {
    vec![
        room("!space:x", true, false),
        room("!chat:x", false, true),
        room("!room:x", false, false),
        room("!odd:x", true, true),
        room("!chat2:x", false, true),
        room("!nameless:x", false, true),
    ]
}

#[test]
fn a_room_is_found_with_its_name() {
    let op = perform(GetRoom::start(s("!a:x")), Action::GetRoom(s("!a:x")));
    let op = perform(
        op.step(Event::Room(Some(room("!a:x", false, true)))),
        Action::DisplayName(s("!a:x")),
    );
    let found = done(op.step(Event::Name(Ok(named("A")))));
    assert_eq!(found, Ok((room("!a:x", false, true), named("A"))));
}

#[test]
fn a_room_without_a_name_is_an_error() {
    let op = perform(GetRoom::start(s("!a:x")), Action::GetRoom(s("!a:x")));
    let op = perform(
        op.step(Event::Room(Some(room("!a:x", false, false)))),
        Action::DisplayName(s("!a:x")),
    );
    assert_eq!(done(op.step(Event::Name(Err(error("no"))))), Err(reported("no")));
}

#[test]
fn unknown_rooms_are_reported() {
    let op = perform(GetRoom::start(s("!a:x")), Action::GetRoom(s("!a:x")));
    assert_eq!(done(op.step(Event::Room(None))), Err(unknown("!a:x")));

    let op = perform(Members::start(s("!a:x")), Action::GetRoom(s("!a:x")));
    assert_eq!(done(op.step(Event::Room(None))), Err(unknown("!a:x")));

    let op = perform(LoadOlder::start(s("!a:x"), None, 1), Action::GetRoom(s("!a:x")));
    assert_eq!(done(op.step(Event::Room(None))), Err(unknown("!a:x")));

    let op = perform(
        SetRoom::start(s("!a:x"), SetRoomField::Name(s("n"))),
        Action::GetJoinedRoom(s("!a:x")),
    );
    assert_eq!(done(op.step(Event::Room(None))), Err(unknown("!a:x")));

    let op = perform(TypingNotice::start(s("!a:x")), Action::GetJoinedRoom(s("!a:x")));
    assert_eq!(done(op.step(Event::Room(None))), ());
}

#[test]
fn members_are_listed() {
    let member = RoomMember {
        user_id: s("@m:x"),
        display_name: Some(s("M")),
        avatar_url: None,
        name: s("M"),
        name_ambiguous: false,
        power_level: 50,
        normalized_power_level: 50,
        membership: s("join"),
        event: MemberEvent {
            event_id: Some(s("$m:x")),
            sender: s("@m:x"),
            origin_server_ts: Some(7),
            content: Some(s("{\"membership\":\"join\"}")),
        },
    };
    let op = perform(Members::start(s("!a:x")), Action::GetRoom(s("!a:x")));
    let op = perform(
        op.step(Event::Room(Some(room("!a:x", false, false)))),
        Action::ActiveMembers(s("!a:x")),
    );
    let listed = done(op.step(Event::Members(Ok(vec![member])))).unwrap();
    assert_eq!(listed.len(), 1);
    assert_eq!(listed[0].user_id, "@m:x");
    assert_eq!(listed[0].power_level, 50);
    assert_eq!(listed[0].event.origin_server_ts, Some(7));

    let failed = done(Members::Fetch.step(Event::Members(Err(error("down")))));
    assert_eq!(failed, Err(reported("down")));
}

#[test]
fn a_typing_notice_never_fails() {
    let op = perform(TypingNotice::start(s("!a:x")), Action::GetJoinedRoom(s("!a:x")));
    let op = perform(
        op.step(Event::Room(Some(room("!a:x", false, false)))),
        Action::TypingNotice(s("!a:x"), true),
    );
    assert_eq!(done(op.step(Event::Done(Err(error("down"))))), ());
    assert_eq!(done(TypingNotice::Notify.step(Event::Done(Ok(())))), ());
}

#[test]
fn fields_of_a_room_are_set() {
    for (field, content) in vec![
        (SetRoomField::Name(s("n")), StateContent::Name(Some(s("n")))),
        (SetRoomField::Name(s("")), StateContent::Name(None)),
        (SetRoomField::Topic(s("t")), StateContent::Topic(s("t"))),
        (SetRoomField::Topic(s("")), StateContent::Topic(s(""))),
    ] {
        let op = perform(SetRoom::start(s("!a:x"), field), Action::GetJoinedRoom(s("!a:x")));
        let op = perform(
            op.step(Event::Room(Some(room("!a:x", false, false)))),
            Action::SendStateEvent(s("!a:x"), content),
        );
        assert_eq!(done(op.step(Event::Done(Ok(())))), Ok(()));
    }
    assert_eq!(
        done(SetRoom::Send.step(Event::Done(Err(error("no"))))),
        Err(reported("no"))
    );
}

#[test]
fn the_rooms_of_a_space_are_listed() {
    let op = perform(
        SpaceMembers::start(s("!s:x")),
        Action::SpaceHierarchy(SpaceHierarchyRequest {
            space: s("!s:x"),
            limit: 1000,
            max_depth: 1,
        }),
    );
    let children = vec![
        SpaceChild { room_id: s("!s:x"), name: Some(s("S")) },
        SpaceChild { room_id: s("!a:x"), name: None },
    ];
    let listed = done(op.step(Event::Children(Ok(children))));
    assert_eq!(listed, Ok(vec![s("!s:x"), s("!a:x")]));

    let failed = done(SpaceMembers::Fetch.step(Event::Children(Err(error("no")))));
    assert_eq!(failed, Err(reported("no")));
}

#[test]
fn older_messages_are_fetched() {
    let op = perform(
        LoadOlder::start(s("!a:x"), Some(s("t1")), 20),
        Action::GetRoom(s("!a:x")),
    );
    let op = perform(
        op.step(Event::Room(Some(room("!a:x", false, false)))),
        Action::Messages(
            s("!a:x"),
            MessagesRequest { direction: Direction::Backward, from: Some(s("t1")), limit: 20 },
        ),
    );
    let text = s(
        "{\"type\":\"m.room.message\",\"event_id\":\"$1:x\",\"sender\":\"@a:x\",\
         \"origin_server_ts\":1,\"room_id\":\"!a:x\",\
         \"content\":{\"msgtype\":\"m.text\",\"body\":\"b\"}}",
    );
    let chunk = vec![s("junk"), text.clone()];
    let page = done(op.step(Event::Messages(Ok((Some(s("t2")), chunk)))));
    assert_eq!(page, Ok((Some(s("t2")), vec![text])));

    let failed = done(LoadOlder::Fetch.step(Event::Messages(Err(error("no")))));
    assert_eq!(failed, Err(reported("no")));
}

fn list(kind: Listing, names: Vec<Result<DisplayName, ClientError>>, asked: Vec<&str>) -> Vec<Room> {
    let op = perform(RoomListing::start(kind), Action::JoinedRooms);
    let mut step = op.step(Event::Rooms(joined()));
    assert_eq!(names.len(), asked.len());
    for (name, id) in names.into_iter().zip(asked) {
        let op = perform(step, Action::DisplayName(s(id)));
        step = op.step(Event::Name(name));
    }
    done(step).into_iter().map(|(room, _)| room).collect()
}

#[test]
fn every_joined_room_is_in_one_listing() {
    let ok = |n: usize| (0..n).map(|_| Ok(named("n"))).collect::<Vec<_>>();
    let direct = list(
        Listing::DirectMessages,
        ok(3),
        vec!["!chat:x", "!chat2:x", "!nameless:x"],
    );
    let rooms = list(Listing::JoinedRooms, ok(1), vec!["!room:x"]);
    let spaces = list(Listing::Spaces, ok(2), vec!["!space:x", "!odd:x"]);
    assert_eq!(direct.len() + rooms.len() + spaces.len(), joined().len());
}

#[test]
fn the_three_listings_together_have_every_named_room_once() {
    let answer = |id: &str| match id {
        "!nameless:x" | "!odd:x" => Err(error("no")),
        _ => Ok(named(id)),
    };
    let mut together = vec![];
    for (kind, asked) in vec![
        (Listing::DirectMessages, vec!["!chat:x", "!chat2:x", "!nameless:x"]),
        (Listing::JoinedRooms, vec!["!room:x"]),
        (Listing::Spaces, vec!["!space:x", "!odd:x"]),
    ] {
        let names = asked.iter().map(|id| answer(id)).collect();
        together.extend(list(kind, names, asked));
    }
    let mut ids: Vec<String> = together.into_iter().map(|room| room.room_id).collect();
    ids.sort();
    assert_eq!(ids, vec![s("!chat2:x"), s("!chat:x"), s("!room:x"), s("!space:x")]);
}

#[test]
fn rooms_without_a_name_are_not_listed() {
    let direct = list(
        Listing::DirectMessages,
        vec![Ok(named("n")), Err(error("no")), Ok(DisplayName::Empty)],
        vec!["!chat:x", "!chat2:x", "!nameless:x"],
    );
    assert_eq!(
        direct,
        vec![room("!chat:x", false, true), room("!nameless:x", false, true)]
    );
}

#[test]
fn a_listing_of_nothing_asks_for_nothing() {
    let op = perform(RoomListing::start(Listing::Spaces), Action::JoinedRooms);
    let listed = done(op.step(Event::Rooms(vec![room("!a:x", false, false)])));
    assert_eq!(listed, vec![]);
}

/// The search for a direct chat, up to the point where the chats have been listed; the
/// last of them has no name.
fn search() -> Step<DirectMessage, Result<(Room, DisplayName), UIError>> {
    let op = perform(DirectMessage::start(s("@u:x")), Action::JoinedRooms);
    let op = perform(op.step(Event::Rooms(joined())), Action::DisplayName(s("!chat:x")));
    let op = perform(op.step(Event::Name(Ok(named("1")))), Action::DisplayName(s("!chat2:x")));
    let op = perform(
        op.step(Event::Name(Ok(named("2")))),
        Action::DisplayName(s("!nameless:x")),
    );
    op.step(Event::Name(Err(error("no"))))
}

fn create() -> DirectMessage {
    let user = s("@u:x");
    let op = perform(search(), Action::GetMember(s("!chat:x"), user.clone()));
    let op = perform(
        op.step(Event::Member(Ok(false))),
        Action::GetMember(s("!chat2:x"), user.clone()),
    );
    perform(
        op.step(Event::Member(Ok(false))),
        Action::CreateRoom(CreateRoom {
            is_direct: true,
            invite: user,
            visibility: Visibility::Private,
            preset: RoomPreset::PrivateChat,
        }),
    )
}

#[test]
fn the_first_direct_chat_with_the_user_is_found() {
    let user = s("@u:x");
    let op = perform(search(), Action::GetMember(s("!chat:x"), user.clone()));
    let op = perform(
        op.step(Event::Member(Ok(false))),
        Action::GetMember(s("!chat2:x"), user),
    );
    let found = done(op.step(Event::Member(Ok(true))));
    assert_eq!(found, Ok((room("!chat2:x", false, true), named("2"))));
}

#[test]
fn the_search_ends_at_a_chat_that_cannot_answer() {
    let op = perform(search(), Action::GetMember(s("!chat:x"), s("@u:x")));
    assert_eq!(done(op.step(Event::Member(Err(error("gone"))))), Err(reported("gone")));
}

#[test]
fn a_direct_chat_is_created_when_there_is_none() {
    let op = perform(
        create().step(Event::RoomId(Ok(s("!new:x")))),
        Action::GetRoom(s("!new:x")),
    );
    let op = perform(
        op.step(Event::Room(Some(room("!new:x", false, true)))),
        Action::DisplayName(s("!new:x")),
    );
    let found = done(op.step(Event::Name(Ok(named("N")))));
    assert_eq!(found, Ok((room("!new:x", false, true), named("N"))));
}

#[test]
fn a_direct_chat_that_cannot_be_created_is_a_failure() {
    let failed = done(create().step(Event::RoomId(Err(error("quota")))));
    assert_eq!(failed, Err(UIError::Failure(Failure::DirectRoom(s("@u:x")))));
}

#[test]
fn rooms_are_joined_by_identifier_or_alias() {
    for name in ["#a:example.org", "!a:example.org"] {
        let op = perform(JoinRoom::start(s(name)), Action::JoinRoomByIdOrAlias(s(name)));
        assert_eq!(done(op.step(Event::RoomId(Ok(s("!r:x"))))), Ok(s("!r:x")));
    }
    let failed = done(JoinRoom::Join.step(Event::RoomId(Err(error("banned")))));
    assert_eq!(failed, Err(UIError::Failure(Failure::Join(s("banned")))));
}

#[test]
fn joining_a_user_opens_the_direct_chat() {
    let op = perform(JoinRoom::start(s("@u:example.org")), Action::JoinedRooms);
    let op = perform(
        op.step(Event::Rooms(vec![room("!chat:x", false, true)])),
        Action::DisplayName(s("!chat:x")),
    );
    let op = perform(
        op.step(Event::Name(Ok(named("c")))),
        Action::GetMember(s("!chat:x"), s("@u:example.org")),
    );
    assert_eq!(done(op.step(Event::Member(Ok(true)))), Ok(s("!chat:x")));
}

#[test]
fn joining_anything_else_is_refused() {
    let failed = done(JoinRoom::start(s("hello")));
    assert_eq!(failed, Err(UIError::Failure(Failure::InvalidName(s("hello")))));
    let failed = done(JoinRoom::begin(s("#a:x"), NameKind::Invalid));
    assert_eq!(failed, Err(UIError::Failure(Failure::InvalidName(s("#a:x")))));
}

#[test]
fn a_message_to_a_joined_room_is_sent() {
    let msg = TextMessage { body: s("hi") };
    let op = perform(
        SendMessage::start(s("!a:x"), s("hi")),
        Action::GetJoinedRoom(s("!a:x")),
    );
    let op = perform(
        op.step(Event::Room(Some(room("!a:x", false, false)))),
        Action::Send(s("!a:x"), TextMessage { body: s("hi") }),
    );
    assert_eq!(done(op.step(Event::Sent(Ok(s("$1"))))), Ok((s("$1"), msg)));

    let failed = done(
        SendMessage::Send(TextMessage { body: s("hi") }).step(Event::Sent(Err(error("no")))),
    );
    assert_eq!(failed, Err(reported("no")));
}

fn join_first() -> SendMessage {
    let op = perform(
        SendMessage::start(s("!a:x"), s("hi")),
        Action::GetJoinedRoom(s("!a:x")),
    );
    perform(op.step(Event::Room(None)), Action::JoinRoomById(s("!a:x")))
}

#[test]
fn a_message_to_another_room_joins_it_first() {
    let op = perform(join_first().step(Event::Done(Ok(()))), Action::GetJoinedRoom(s("!a:x")));
    let op = perform(
        op.step(Event::Room(Some(room("!a:x", false, false)))),
        Action::Send(s("!a:x"), TextMessage { body: s("hi") }),
    );
    assert!(done(op.step(Event::Sent(Ok(s("$2"))))).is_ok());
}

#[test]
fn a_message_to_a_room_that_cannot_be_joined_is_not_sent() {
    let failed = done(join_first().step(Event::Done(Err(error("no")))));
    assert_eq!(failed, Err(unknown("!a:x")));

    let op = perform(join_first().step(Event::Done(Ok(()))), Action::GetJoinedRoom(s("!a:x")));
    assert_eq!(done(op.step(Event::Room(None))), Err(unknown("!a:x")));
}

fn session() -> Session {
    Session {
        access_token: s("a"),
        refresh_token: Some(s("r")),
        user_id: s("@me:x"),
        device_id: s("D"),
    }
}

#[test]
fn a_password_opens_a_session_that_is_kept() {
    let op = perform(
        LoginAndSync::begin(LoginStyle::Password(s("pw")), s("@me:x"), s("iamb on box")),
        Action::LoginUsername {
            user_id: s("@me:x"),
            password: s("pw"),
            device_name: s("iamb on box"),
        },
    );
    let op = perform(op.step(Event::Session(Ok(session()))), Action::SaveSession(session()));
    let op = perform(op.step(Event::Saved(Ok(()))), Action::StartSync);
    let op = perform(op.step(Event::SyncStarted(1)), Action::SyncOnce);
    assert_eq!(done(op.step(Event::Done(Ok(())))), Ok(Some(InfoMessage::LoggedIn)));
}

#[test]
fn a_login_here_names_the_device() {
    let step = LoginAndSync::start(LoginStyle::Password(s("pw")), s("@me:x"));
    match step {
        Step::Perform(LoginAndSync::Login, Action::LoginUsername { device_name, .. }) => {
            assert!(device_name.starts_with("iamb on "));
        },
        _ => panic!("the password is not used"),
    }
}

#[test]
fn an_earlier_session_is_resumed() {
    let op = perform(
        LoginAndSync::start(LoginStyle::SessionRestore(session()), s("@me:x")),
        Action::RestoreLogin(session()),
    );
    let op = perform(op.step(Event::Done(Ok(()))), Action::StartSync);
    let op = perform(op.step(Event::SyncStarted(1)), Action::SyncOnce);
    assert_eq!(done(op.step(Event::Done(Ok(())))), Ok(Some(InfoMessage::LoggedIn)));
}

#[test]
fn a_login_fails_where_it_goes_wrong() {
    assert_eq!(
        done(LoginAndSync::Restore.step(Event::Done(Err(error("a"))))),
        Err(reported("a"))
    );
    assert_eq!(
        done(LoginAndSync::Login.step(Event::Session(Err(error("b"))))),
        Err(reported("b"))
    );
    assert_eq!(
        done(LoginAndSync::Save.step(Event::Saved(Err(UIError::IOError(s("full")))))),
        Err(UIError::IOError(s("full")))
    );
    assert_eq!(
        done(LoginAndSync::SyncOnce.step(Event::Done(Err(error("c"))))),
        Err(reported("c"))
    );
}

#[test]
fn a_verification_is_accepted_at_once() {
    let op = perform(
        Verify::start(VerifyAction::Accept, s("@a:x/D")),
        Action::SasAccept(s("@a:x/D")),
    );
    assert_eq!(done(op.step(Event::Done(Ok(())))), Ok(Some(InfoMessage::Accepted)));
}

#[test]
fn an_open_verification_is_moved_on() {
    for (act, action, info) in vec![
        (VerifyAction::Confirm, Action::SasConfirm(s("k")), InfoMessage::Confirmed),
        (VerifyAction::Cancel, Action::SasCancel(s("k")), InfoMessage::Cancelled),
        (VerifyAction::Mismatch, Action::SasMismatch(s("k")), InfoMessage::Cancelled),
    ] {
        let op = perform(Verify::start(act, s("k")), Action::SasStatus(s("k")));
        let op = perform(op.step(Event::Sas { is_done: false, is_cancelled: false }), action);
        assert_eq!(done(op.step(Event::Done(Ok(())))), Ok(Some(info)));
        let failed = done(Verify::Act(act).step(Event::Done(Err(error("no")))));
        assert_eq!(failed, Err(reported("no")));
    }
}

#[test]
fn a_verification_that_is_over_stays_as_it_is() {
    for (act, failure) in vec![
        (VerifyAction::Confirm, Failure::NotConfirmable),
        (VerifyAction::Cancel, Failure::NotCancellable),
        (VerifyAction::Mismatch, Failure::NotCancellable),
    ] {
        for (is_done, is_cancelled) in vec![(true, false), (false, true), (true, true)] {
            let op = perform(Verify::start(act, s("k")), Action::SasStatus(s("k")));
            let failed = done(op.step(Event::Sas { is_done, is_cancelled })).unwrap_err();
            match &failed {
                UIError::Failure(got) => assert_eq!(got, &failure),
                _ => panic!("not a failure: {:?}", failed),
            }
        }
    }
}

#[test]
fn a_verification_is_requested_of_a_known_user() {
    let op = perform(
        VerifyRequest::start(s("@u:x")),
        Action::GetUserIdentity(s("@u:x")),
    );
    let op = perform(
        op.step(Event::Identity(Ok(true))),
        Action::RequestVerification(s("@u:x"), VerificationMethod::SasV1),
    );
    assert_eq!(
        done(op.step(Event::Done(Ok(())))),
        Ok(Some(InfoMessage::RequestSent(s("@u:x"))))
    );
}

#[test]
fn a_verification_is_not_requested_of_an_unknown_user() {
    let failed = done(VerifyRequest::Identity(s("@u:x")).step(Event::Identity(Ok(false))));
    assert_eq!(failed, Err(UIError::Failure(Failure::NoIdentity(s("@u:x")))));
    let failed = done(VerifyRequest::Identity(s("@u:x")).step(Event::Identity(Err(error("a")))));
    assert_eq!(failed, Err(reported("a")));
    let failed = done(VerifyRequest::Request(s("@u:x")).step(Event::Done(Err(error("b")))));
    assert_eq!(failed, Err(reported("b")));
}

#[test]
fn events_answer_their_actions_only() {
    assert!(Event::Rooms(vec![]).answers(&Action::JoinedRooms));
    assert!(!Event::Rooms(vec![]).answers(&Action::SyncOnce));
    assert!(Event::Done(Ok(())).answers(&Action::SyncOnce));
    assert!(!Event::Done(Ok(())).answers(&Action::StartSync));
    assert!(Event::SyncStarted(0).answers(&Action::StartSync));
}

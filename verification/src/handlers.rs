//! What the worker does with events that the server sends of its own accord.
use vstd::prelude::*;

use crate::base::{
    display_name_text, render_display_name, ClientError, DisplayName, RoomId, UserId,
};
use crate::store::{
    Application, ApplicationState, Message, MessageKey, MessageTimeStamp, RoomMessageEvent,
    RoomState,
};

verus! {

/// How an event of a verification arrives.
#[derive(Clone, Copy, Debug, PartialEq, Eq, Structural)]
pub enum Source {
    /// In a room.
    Room,
    /// Directly at the device.
    ToDevice,
}

/// How far a verification has come.
#[derive(Clone, Copy, Debug, PartialEq, Eq, Structural)]
pub enum Stage {
    /// It was started.
    Start,
    /// The other side's key has arrived.
    Key,
    /// It is done.
    Done,
}

/// What a handler of events is for.
#[derive(Clone, Copy, Debug, PartialEq, Eq, Structural)]
pub enum Handler {
    /// Users start or stop typing.
    Typing,
    /// A room gets a name.
    RoomName,
    /// A message arrives.
    Message,
    /// A verification moves on.
    Verification(Source, Stage),
    /// A verification is requested of the device.
    VerificationRequest,
}

/// The handlers that the worker needs.
pub open spec fn needed_handlers() -> Seq<Handler> {
    seq![
        Handler::Typing,
        Handler::RoomName,
        Handler::Message,
        Handler::Verification(Source::Room, Stage::Start),
        Handler::Verification(Source::Room, Stage::Key),
        Handler::Verification(Source::Room, Stage::Done),
        Handler::VerificationRequest,
        Handler::Verification(Source::ToDevice, Stage::Start),
        Handler::Verification(Source::ToDevice, Stage::Key),
        Handler::Verification(Source::ToDevice, Stage::Done),
    ]
}

/// The handlers that the worker needs, in the order in which they are added.
pub fn handlers() -> (r: Vec<Handler>)
    ensures
        r@ == needed_handlers(),
{
    let r = vec![
        Handler::Typing,
        Handler::RoomName,
        Handler::Message,
        Handler::Verification(Source::Room, Stage::Start),
        Handler::Verification(Source::Room, Stage::Key),
        Handler::Verification(Source::Room, Stage::Done),
        Handler::VerificationRequest,
        Handler::Verification(Source::ToDevice, Stage::Start),
        Handler::Verification(Source::ToDevice, Stage::Key),
        Handler::Verification(Source::ToDevice, Stage::Done),
    ];
    proof {
        assert(r@ =~= needed_handlers());
    }
    r
}

/// The users but for one, in order.
pub open spec fn without(users: Seq<UserId>, user: UserId) -> Seq<UserId> {
    users.filter(|u: UserId| u@ != user@)
}

/// Takes the users but for one, in order.
pub fn take_without(users: &Vec<UserId>, user: &UserId) -> (r: Vec<UserId>)
    ensures
        r@ == without(users@, *user),
{
    let mut others: Vec<UserId> = Vec::new();
    let mut i: usize = 0;
    proof {
        reveal(Seq::filter);
        assert(without(users@.take(0), *user) =~= Seq::<UserId>::empty());
    }
    while i < users.len()
        invariant
            i <= users@.len(),
            others@ == without(users@.take(i as int), *user),
        decreases users@.len() - i,
    {
        proof {
            reveal(Seq::filter);
            assert(users@.take(i + 1).drop_last() =~= users@.take(i as int));
            assert(users@.take(i + 1).last() == users@[i as int]);
        }
        if users[i] != *user {
            others.push(users[i].clone());
        }
        i = i + 1;
    }
    proof {
        assert(users@.take(i as int) =~= users@);
    }
    others
}

/// What the program knows once it was told who is typing in a room: the user of the
/// program does not count.
pub open spec fn typing_changed(
    state: ApplicationState,
    room_id: Seq<char>,
    users: Seq<UserId>,
) -> ApplicationState {
    state.with_room(
        room_id,
        RoomState { typing: without(users, state.user_id), ..state.room(room_id) },
    )
}

/// Takes note of who is typing in a room.
pub fn on_typing(app: &mut Application, room_id: RoomId, users: Vec<UserId>)
    requires
        old(app).wf(),
    ensures
        final(app).wf(),
        final(app)@ == typing_changed(old(app)@, room_id@, users@),
{
    let others = take_without(&users, app.user_id());
    let info = app.get_room_info(room_id);
    info.set_typing(others);
}

/// An event that names a room.
#[derive(Debug, PartialEq, Eq)]
pub enum RoomNameEvent {
    /// The room has this name, or none.
    Original(Option<String>),
    /// The event was taken back.
    Redacted,
}

/// What the program knows once a room was named: an event without a name changes
/// nothing.
pub open spec fn room_named(
    state: ApplicationState,
    room_id: Seq<char>,
    event: RoomNameEvent,
) -> ApplicationState {
    match event {
        RoomNameEvent::Original(Some(name)) => state.with_room(
            room_id,
            RoomState { name: Some(name@), ..state.room(room_id) },
        ),
        _ => state,
    }
}

/// Takes note of a room's name.
pub fn on_room_name(app: &mut Application, room_id: RoomId, event: RoomNameEvent)
    requires
        old(app).wf(),
    ensures
        final(app).wf(),
        final(app)@ == room_named(old(app)@, room_id@, event),
{
    if let RoomNameEvent::Original(name) = event {
        if let Some(name) = name {
            let info = app.get_room_info(room_id);
            info.name = Some(name);
        }
    }
}

/// The text of a display name, if there is one.
pub open spec fn name_text(name: Result<DisplayName, ClientError>) -> Option<Seq<char>> {
    match name {
        Ok(name) => Some(display_name_text(name)),
        Err(_) => None,
    }
}

/// What a message from the server is found by.
pub open spec fn server_key(event: RoomMessageEvent) -> (MessageTimeStamp, Seq<char>) {
    (MessageTimeStamp::OriginServer(event.origin_server_ts), event.event_id@)
}

/// What the echo of a message is found by.
pub open spec fn echo_key(event: RoomMessageEvent) -> (MessageTimeStamp, Seq<char>) {
    (MessageTimeStamp::LocalEcho, event.event_id@)
}

/// What is known of a room once a message has arrived there: its display name, or none
/// if it could not be had, and the message in place of its echo.
pub open spec fn room_after_message(
    state: RoomState,
    room_id: RoomId,
    name: Result<DisplayName, ClientError>,
    event: RoomMessageEvent,
) -> RoomState {
    RoomState {
        name: name_text(name),
        messages: state.messages.insert(server_key(event), Message { room_id, event }).remove(
            echo_key(event),
        ),
        ..state
    }
}

/// What the program knows once a message has arrived in a room.
pub open spec fn message_received(
    state: ApplicationState,
    room_id: RoomId,
    name: Result<DisplayName, ClientError>,
    event: RoomMessageEvent,
) -> ApplicationState {
    state.with_room(
        room_id@,
        room_after_message(state.room(room_id@), room_id, name, event),
    )
}

/// Takes note of a message in a room, and of the room's display name.
pub fn on_message(
    app: &mut Application,
    room_id: RoomId,
    name: Result<DisplayName, ClientError>,
    event: RoomMessageEvent,
)
    requires
        old(app).wf(),
    ensures
        final(app).wf(),
        final(app)@ == message_received(old(app)@, room_id, name, event),
{
    let name = match name {
        Ok(name) => Some(render_display_name(name)),
        Err(_) => None,
    };
    let info = app.get_room_info(room_id.clone());
    info.name = name;

    let key = MessageKey {
        timestamp: MessageTimeStamp::OriginServer(event.origin_server_ts),
        event_id: event.event_id.clone(),
    };
    let echo = MessageKey {
        timestamp: MessageTimeStamp::LocalEcho,
        event_id: event.event_id.clone(),
    };
    info.insert_message(key, Message { room_id, event });
    info.messages.remove(&echo);
}

/// The user of the program is never among those that are typing.
pub proof fn law_own_typing_ignored(
    state: ApplicationState,
    room_id: Seq<char>,
    users: Seq<UserId>,
)
    ensures
        forall|i: int|
            0 <= i < typing_changed(state, room_id, users).room(room_id).typing.len() ==> (
            #[trigger] typing_changed(state, room_id, users).room(room_id).typing[i])@
                != state.user_id@,
{
    broadcast use vstd::seq_lib::group_filter_ensures;

}

/// A message that arrives takes the place of its echo: it is there, its echo is not, and
/// every other message of the room stays as it was.
pub proof fn law_echo_replaced(
    state: ApplicationState,
    room_id: RoomId,
    name: Result<DisplayName, ClientError>,
    event: RoomMessageEvent,
)
    ensures
        ({
            let before = state.room(room_id@).messages;
            let after = message_received(state, room_id, name, event).room(room_id@).messages;
            &&& after.contains_key(server_key(event))
            &&& after[server_key(event)] == (Message { room_id, event })
            &&& !after.contains_key(echo_key(event))
            &&& forall|key: (MessageTimeStamp, Seq<char>)|
                key != server_key(event) && key != echo_key(event) ==> {
                    &&& #[trigger] after.contains_key(key) == before.contains_key(key)
                    &&& before.contains_key(key) ==> after[key] == before[key]
                }
        }),
{
}

/// A message that arrives twice is there once.
pub proof fn law_message_idempotent(
    state: ApplicationState,
    room_id: RoomId,
    name: Result<DisplayName, ClientError>,
    event: RoomMessageEvent,
)
    ensures
        message_received(message_received(state, room_id, name, event), room_id, name, event)
            == message_received(state, room_id, name, event),
{
    let once = message_received(state, room_id, name, event);
    let twice = message_received(once, room_id, name, event);
    assert(twice.room(room_id@).messages =~= once.room(room_id@).messages);
    assert(twice.rooms =~= once.rooms);
}

/// What happens in one room leaves every other room, and the user of the program, as
/// they were.
pub proof fn law_other_rooms_unchanged(
    state: ApplicationState,
    room_id: RoomId,
    other: Seq<char>,
    users: Seq<UserId>,
    naming: RoomNameEvent,
    name: Result<DisplayName, ClientError>,
    event: RoomMessageEvent,
)
    requires
        other != room_id@,
    ensures
        typing_changed(state, room_id@, users).room(other) == state.room(other),
        room_named(state, room_id@, naming).room(other) == state.room(other),
        message_received(state, room_id, name, event).room(other) == state.room(other),
        typing_changed(state, room_id@, users).user_id == state.user_id,
        room_named(state, room_id@, naming).user_id == state.user_id,
        message_received(state, room_id, name, event).user_id == state.user_id,
{
}

/// Who is typing, what a room is called and which messages it has are told apart: typing
/// changes neither the name nor the messages, a name changes neither the messages nor who is
/// typing, and a message does not change who is typing.
pub proof fn law_room_fields_independent(
    state: ApplicationState,
    room_id: RoomId,
    users: Seq<UserId>,
    naming: RoomNameEvent,
    name: Result<DisplayName, ClientError>,
    event: RoomMessageEvent,
)
    ensures
        typing_changed(state, room_id@, users).room(room_id@).name == state.room(room_id@).name,
        typing_changed(state, room_id@, users).room(room_id@).messages == state.room(
            room_id@,
        ).messages,
        room_named(state, room_id@, naming).room(room_id@).messages == state.room(
            room_id@,
        ).messages,
        room_named(state, room_id@, naming).room(room_id@).typing == state.room(room_id@).typing,
        message_received(state, room_id, name, event).room(room_id@).typing == state.room(
            room_id@,
        ).typing,
{
}

/// The handlers are ten, all different, and there is one for everything that a handler can be
/// for.
pub proof fn law_one_handler_each(handler: Handler)
    ensures
        needed_handlers().len() == 10,
        needed_handlers().no_duplicates(),
        needed_handlers().contains(handler),
{
    let all = needed_handlers();
    match handler {
        Handler::Typing => assert(all[0] == handler),
        Handler::RoomName => assert(all[1] == handler),
        Handler::Message => assert(all[2] == handler),
        Handler::Verification(Source::Room, Stage::Start) => assert(all[3] == handler),
        Handler::Verification(Source::Room, Stage::Key) => assert(all[4] == handler),
        Handler::Verification(Source::Room, Stage::Done) => assert(all[5] == handler),
        Handler::VerificationRequest => assert(all[6] == handler),
        Handler::Verification(Source::ToDevice, Stage::Start) => assert(all[7] == handler),
        Handler::Verification(Source::ToDevice, Stage::Key) => assert(all[8] == handler),
        Handler::Verification(Source::ToDevice, Stage::Done) => assert(all[9] == handler),
    }
}

/// Everyone who was reported as typing is shown, but for the user of the program, in the order
/// of the report and whoever was shown before; the room's name and messages stay, and so does
/// every other room.
pub proof fn law_typing_known(
    state: ApplicationState,
    room_id: Seq<char>,
    users: Seq<UserId>,
    other: Seq<char>,
)
    ensures
        ({
            let after = typing_changed(state, room_id, users);
            &&& after.user_id == state.user_id
            &&& after.rooms.contains_key(room_id)
            &&& after.rooms[room_id].typing == users.filter(|u: UserId| u@ != state.user_id@)
            &&& state.rooms.contains_key(room_id) ==> {
                &&& after.rooms[room_id].name == state.rooms[room_id].name
                &&& after.rooms[room_id].messages == state.rooms[room_id].messages
            }
            &&& !state.rooms.contains_key(room_id) ==> {
                &&& after.rooms[room_id].name is None
                &&& after.rooms[room_id].messages.dom().is_empty()
            }
            &&& other != room_id ==> {
                &&& after.rooms.contains_key(other) <==> state.rooms.contains_key(other)
                &&& after.rooms[other] == state.rooms[other]
            }
        }),
{
}

/// Of some users, those but for one are just the ones with another identifier, in order.
pub proof fn law_without(users: Seq<UserId>, user: UserId)
    ensures
        without(users, user) == users.filter(|u: UserId| u@ != user@),
{
}

/// An event that names a room gives the room that name, whatever was known of the room before;
/// its messages and who is typing stay, and so does every other room. An event without a name,
/// or one that was taken back, changes nothing at all.
pub proof fn law_room_renamed(
    state: ApplicationState,
    room_id: Seq<char>,
    name: String,
    other: Seq<char>,
)
    ensures
        ({
            let after = room_named(state, room_id, RoomNameEvent::Original(Some(name)));
            &&& after.user_id == state.user_id
            &&& after.rooms.contains_key(room_id)
            &&& after.rooms[room_id].name == Some(name@)
            &&& state.rooms.contains_key(room_id) ==> {
                &&& after.rooms[room_id].messages == state.rooms[room_id].messages
                &&& after.rooms[room_id].typing == state.rooms[room_id].typing
            }
            &&& !state.rooms.contains_key(room_id) ==> {
                &&& after.rooms[room_id].messages.dom().is_empty()
                &&& after.rooms[room_id].typing.len() == 0
            }
            &&& other != room_id ==> {
                &&& after.rooms.contains_key(other) <==> state.rooms.contains_key(other)
                &&& after.rooms[other] == state.rooms[other]
            }
        }),
        room_named(state, room_id, RoomNameEvent::Original(None)) == state,
        room_named(state, room_id, RoomNameEvent::Redacted) == state,
{
}

/// A message that arrives is kept whole, under the time of its server and its event; its echo
/// is gone, every other message stays, and so does who is typing.
pub proof fn law_message_known(
    state: ApplicationState,
    room_id: RoomId,
    name: Result<DisplayName, ClientError>,
    event: RoomMessageEvent,
    timestamp: MessageTimeStamp,
    event_id: Seq<char>,
)
    ensures
        ({
            let after = message_received(state, room_id, name, event);
            let room = after.rooms[room_id@];
            let at = (MessageTimeStamp::OriginServer(event.origin_server_ts), event.event_id@);
            let key = (timestamp, event_id);
            &&& after.user_id == state.user_id
            &&& after.rooms.contains_key(room_id@)
            &&& room.messages.contains_key(at)
            &&& room.messages[at].room_id == room_id
            &&& room.messages[at].event == event
            &&& !room.messages.contains_key((MessageTimeStamp::LocalEcho, event.event_id@))
            &&& state.rooms.contains_key(room_id@) ==> {
                let before = state.rooms[room_id@];
                &&& room.typing == before.typing
                &&& key != at && key != (MessageTimeStamp::LocalEcho, event.event_id@) ==> {
                    &&& room.messages.contains_key(key) <==> before.messages.contains_key(key)
                    &&& before.messages.contains_key(key) ==> room.messages[key]
                        == before.messages[key]
                }
            }
            &&& !state.rooms.contains_key(room_id@) ==> {
                &&& room.typing.len() == 0
                &&& room.messages.contains_key(key) ==> key == at
            }
        }),
{
}

/// A room that a message has arrived in is known under its display name, of whichever kind it
/// is and whatever the room was known under before; where there is none to be had, it has no
/// name. Other rooms stay as they were.
pub proof fn law_message_names_room(
    state: ApplicationState,
    room_id: RoomId,
    name: DisplayName,
    error: ClientError,
    event: RoomMessageEvent,
    other: Seq<char>,
)
    ensures
        message_received(state, room_id, Ok(name), event).rooms[room_id@].name == Some(
            match name {
                DisplayName::Named(shown) => shown@,
                DisplayName::Aliased(shown) => shown@,
                DisplayName::Calculated(shown) => shown@,
                DisplayName::EmptyWas(shown) => "Empty Room (was "@ + shown@ + ")"@,
                DisplayName::Empty => "Empty Room"@,
            },
        ),
        message_received(state, room_id, Err(error), event).rooms[room_id@].name is None,
        other != room_id@ ==> {
            let after = message_received(state, room_id, Ok(name), event);
            let unnamed = message_received(state, room_id, Err(error), event);
            &&& after.rooms.contains_key(other) <==> state.rooms.contains_key(other)
            &&& after.rooms[other] == state.rooms[other]
            &&& unnamed.rooms.contains_key(other) <==> state.rooms.contains_key(other)
            &&& unnamed.rooms[other] == state.rooms[other]
        },
{
}

} // verus!

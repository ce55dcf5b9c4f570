//! What the program knows of the rooms.
use vstd::prelude::*;

use crate::base::{EventId, RoomId, UserId};
use crate::table::{Key, Table};

verus! {

/// When a message was sent.
#[derive(Clone, Copy, Debug, PartialEq, Eq, Structural)]
pub enum MessageTimeStamp {
    /// At this time, in milliseconds since 1970, by the clock of the sender's server.
    OriginServer(u64),
    /// The server has not told yet: the message is shown because it was sent from here.
    LocalEcho,
}

/// What a message is found by.
#[derive(Debug, PartialEq, Eq)]
pub struct MessageKey {
    /// When it was sent.
    pub timestamp: MessageTimeStamp,
    /// The event that it came as.
    pub event_id: EventId,
}

impl View for MessageKey {
    type V = (MessageTimeStamp, Seq<char>);

    open spec fn view(&self) -> (MessageTimeStamp, Seq<char>) {
        (self.timestamp, self.event_id@)
    }
}

impl Key for MessageKey {
    fn same(&self, other: &MessageKey) -> (r: bool) {
        self.timestamp == other.timestamp && self.event_id == other.event_id
    }
}

/// What kind of message an event brings.
#[derive(Clone, Copy, Debug, PartialEq, Eq, Structural)]
pub enum MessageKind {
    /// A request for verification.
    VerificationRequest,
    /// Another message.
    Message,
    /// The message was taken back.
    Redacted,
}

/// An event that brings a message.
#[derive(Debug, PartialEq, Eq)]
pub struct RoomMessageEvent {
    /// The event's identifier.
    pub event_id: EventId,
    /// Who sent it.
    pub sender: UserId,
    /// When it was sent, in milliseconds since 1970.
    pub origin_server_ts: u64,
    /// What kind of message it brings.
    pub kind: MessageKind,
    /// The JSON text of the whole event.
    pub json: String,
}

/// A message of a room.
#[derive(Debug, PartialEq, Eq)]
pub struct Message {
    /// The room.
    pub room_id: RoomId,
    /// The event that brought it.
    pub event: RoomMessageEvent,
}

/// What is known of a room.
#[derive(Debug, PartialEq, Eq)]
pub struct RoomInfo {
    /// The room's name.
    pub name: Option<String>,
    /// The room's messages.
    pub messages: Table<MessageKey, Message>,
    /// Who is typing.
    pub typing: Vec<UserId>,
}

/// What is known of a room, as a value.
#[verifier::ext_equal]
pub ghost struct RoomState {
    /// The text of the room's name.
    pub name: Option<Seq<char>>,
    /// The room's messages.
    pub messages: Map<(MessageTimeStamp, Seq<char>), Message>,
    /// Who is typing.
    pub typing: Seq<UserId>,
}

impl View for RoomInfo {
    type V = RoomState;

    open spec fn view(&self) -> RoomState {
        RoomState {
            name: match self.name {
                Some(name) => Some(name@),
                None => None,
            },
            messages: self.messages@,
            typing: self.typing@,
        }
    }
}

impl RoomState {
    /// Nothing is known.
    pub open spec fn fresh() -> RoomState {
        RoomState { name: None, messages: Map::empty(), typing: Seq::empty() }
    }
}

impl RoomInfo {
    /// The messages are well-formed.
    pub open spec fn wf(self) -> bool {
        self.messages.wf()
    }

    /// Nothing is known of the room.
    pub fn new() -> (r: RoomInfo)
        ensures
            r.wf(),
            r@ == RoomState::fresh(),
    {
        RoomInfo { name: None, messages: Table::new(), typing: Vec::new() }
    }

    /// Sets who is typing.
    pub fn set_typing(&mut self, users: Vec<UserId>)
        requires
            old(self).wf(),
        ensures
            final(self).wf(),
            final(self)@ == (RoomState { typing: users@, ..old(self)@ }),
    {
        self.typing = users;
    }

    /// Puts a message where its key says; a message that was there is replaced.
    pub fn insert_message(&mut self, key: MessageKey, message: Message)
        requires
            old(self).wf(),
        ensures
            final(self).wf(),
            final(self)@ == (RoomState {
                messages: old(self)@.messages.insert(key@, message),
                ..old(self)@
            }),
    {
        let ghost id = key@;
        self.messages.remove(&key);
        self.messages.entry(key, message);
        proof {
            assert(self.messages@ =~= old(self).messages@.insert(id, message));
        }
    }
}

/// What the program knows.
#[derive(Debug, PartialEq, Eq)]
pub struct Application {
    user_id: UserId,
    rooms: Table<RoomId, RoomInfo>,
}

/// What the program knows, as a value.
#[verifier::ext_equal]
pub ghost struct ApplicationState {
    /// The user of the program.
    pub user_id: UserId,
    /// The rooms that something is known of.
    pub rooms: Map<Seq<char>, RoomState>,
}

impl View for Application {
    type V = ApplicationState;

    closed spec fn view(&self) -> ApplicationState {
        ApplicationState {
            user_id: self.user_id,
            rooms: self.rooms@.map_values(|info: RoomInfo| info@),
        }
    }
}

impl ApplicationState {
    /// What is known of a room.
    pub open spec fn room(self, room_id: Seq<char>) -> RoomState {
        if self.rooms.contains_key(room_id) {
            self.rooms[room_id]
        } else {
            RoomState::fresh()
        }
    }

    /// The same, but for what is known of one room.
    pub open spec fn with_room(self, room_id: Seq<char>, state: RoomState) -> ApplicationState {
        ApplicationState { rooms: self.rooms.insert(room_id, state), ..self }
    }
}

impl Application {
    /// The rooms and their messages are well-formed.
    pub closed spec fn wf(self) -> bool {
        &&& self.rooms.wf()
        &&& forall|room_id: Seq<char>| #[trigger]
            self.rooms@.contains_key(room_id) ==> self.rooms@[room_id].wf()
    }

    /// A program that knows of no room.
    pub fn new(user_id: UserId) -> (r: Application)
        ensures
            r.wf(),
            r@ == (ApplicationState { user_id, rooms: Map::empty() }),
    {
        let r = Application { user_id, rooms: Table::new() };
        proof {
            assert(r@.rooms =~= Map::<Seq<char>, RoomState>::empty());
        }
        r
    }

    /// The user of the program.
    pub fn user_id(&self) -> (r: &UserId)
        ensures
            *r == self@.user_id,
    {
        &self.user_id
    }

    /// What is known of a room, if anything.
    pub fn room(&self, room_id: &RoomId) -> (r: Option<&RoomInfo>)
        requires
            self.wf(),
        ensures
            r is Some <==> self@.rooms.contains_key(room_id@),
            r matches Some(info) ==> info.wf() && info@ == self@.rooms[room_id@],
    {
        self.rooms.get(room_id)
    }

    /// What is known of a room, to be changed; a room that is new to the program is
    /// known of from here on.
    pub fn get_room_info(&mut self, room_id: RoomId) -> (r: &mut RoomInfo)
        requires
            old(self).wf(),
        ensures
            r.wf(),
            r@ == old(self)@.room(room_id@),
            final(r).wf() ==> final(self).wf(),
            final(self)@ == old(self)@.with_room(room_id@, final(r)@),
    {
        let ghost before = self.rooms@;
        let ghost id = room_id@;
        let fresh = RoomInfo::new();
        let r = self.rooms.entry(room_id, fresh);
        proof {
            assert(before.insert(id, *final(r)).map_values(|info: RoomInfo| info@)
                =~= before.map_values(|info: RoomInfo| info@).insert(id, final(r)@));
        }
        r
    }
}

/// What is known of a room is what was last put there; of a room that is new to the program
/// nothing is known, and putting something there changes that one room only.
pub proof fn law_rooms_kept(
    state: ApplicationState,
    room_id: Seq<char>,
    put: RoomState,
    other: Seq<char>,
)
    ensures
        state.rooms.contains_key(other) ==> state.room(other) == state.rooms[other],
        !state.rooms.contains_key(other) ==> {
            let room = state.room(other);
            room.name is None && room.messages.dom().is_empty() && room.typing.len() == 0
        },
        state.with_room(room_id, put).user_id == state.user_id,
        state.with_room(room_id, put).rooms.contains_key(room_id),
        state.with_room(room_id, put).rooms[room_id] == put,
        other != room_id ==> {
            let after = state.with_room(room_id, put);
            &&& after.rooms.contains_key(other) <==> state.rooms.contains_key(other)
            &&& after.rooms[other] == state.rooms[other]
        },
{
}

/// What is known of a room as a value is what the program holds: the name's text, the messages
/// by their keys, and who is typing.
pub proof fn law_room_info(info: RoomInfo, key: MessageKey)
    ensures
        info.name matches Some(name) ==> info@.name == Some(name@),
        info.name is None ==> info@.name is None,
        info@.messages == info.messages@,
        info@.typing == info.typing@,
        key@ == (key.timestamp, key.event_id@),
{
}

} // verus!

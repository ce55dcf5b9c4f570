//! Opening direct chats, and joining rooms by what the user typed.
use vstd::pervasive::unreached;
use vstd::prelude::*;

use crate::base::{
    reported, ClientError, DisplayName, Failure, IambError, IambResult, Room, RoomId, UIError,
    UserId,
};
use crate::client::{Action, CreateRoom, Event, RoomPreset, Step, Visibility};
use crate::ident::{
    classify_name, name_kind, room_or_alias_id, starts_with, user_id, NameKind,
};
use crate::ops::listing::{
    add_named, law_selection, lemma_listing_wf, lemma_with_names_told, listing_step, name_next,
    rooms_of, selected, that_told, with_names, Listing, ListingState, ListingStep, RoomListing,
};
use crate::ops::room::GetRoom;

verus! {

/// The room that is created for a direct chat with a user.
pub open spec fn direct_room(user: UserId) -> CreateRoom {
    CreateRoom {
        is_direct: true,
        invite: user,
        visibility: Visibility::Private,
        preset: RoomPreset::PrivateChat,
    }
}

/// How far the search for a direct chat has come.
#[verifier::ext_equal]
pub ghost enum DirectState {
    /// The direct chats are being listed.
    List(UserId, ListingState),
    /// The direct chats are being searched for the user; the first is being asked.
    Probe(UserId, Seq<(Room, DisplayName)>),
    /// A new direct chat is being created.
    Create(UserId),
    /// The new direct chat is being looked up.
    Open(GetRoom),
}

/// A step of the search for a direct chat.
pub type DirectStep = Step<DirectState, IambResult<(Room, DisplayName)>>;

/// Asks the next direct chat for the user, or creates one.
pub open spec fn probe_next(user: UserId, rooms: Seq<(Room, DisplayName)>) -> DirectStep {
    if rooms.len() == 0 {
        Step::Perform(DirectState::Create(user), Action::CreateRoom(direct_room(user)))
    } else {
        Step::Perform(
            DirectState::Probe(user, rooms),
            Action::GetMember(rooms.first().0.room_id, user),
        )
    }
}

/// Goes on after a step of the listing.
pub open spec fn after_listing(user: UserId, step: ListingStep) -> DirectStep {
    match step {
        Step::Perform(state, action) => Step::Perform(DirectState::List(user, state), action),
        Step::Done(rooms) => probe_next(user, rooms),
    }
}

/// Goes on after a step of looking the new room up.
pub open spec fn after_open(step: Step<GetRoom, IambResult<(Room, DisplayName)>>) -> DirectStep {
    match step {
        Step::Perform(op, action) => Step::Perform(DirectState::Open(op), action),
        Step::Done(room) => Step::Done(room),
    }
}

impl DirectState {
    /// Whether the event answers what the search last asked for.
    pub open spec fn awaits(self, event: Event) -> bool {
        match self {
            DirectState::List(_, state) => state.awaits(event),
            DirectState::Probe(_, _) => event is Member,
            DirectState::Create(_) => event is RoomId,
            DirectState::Open(op) => op.awaits(event),
        }
    }

    /// How the search goes on after an event.
    pub open spec fn next(self, event: Event) -> DirectStep {
        match (self, event) {
            (DirectState::List(user, state), _) => after_listing(user, state.next(event)),
            (DirectState::Probe(user, rooms), Event::Member(Ok(member))) => if member {
                Step::Done(Ok(rooms.first()))
            } else {
                probe_next(user, rooms.drop_first())
            },
            (DirectState::Probe(_, _), Event::Member(Err(error))) => Step::Done(
                Err(reported(error)),
            ),
            (DirectState::Create(_), Event::RoomId(Ok(room_id))) => after_open(
                GetRoom::starts(room_id),
            ),
            (DirectState::Create(user), Event::RoomId(Err(_))) => Step::Done(
                Err(UIError::Failure(Failure::DirectRoom(user))),
            ),
            (DirectState::Open(op), _) => after_open(op.next(event)),
            _ => arbitrary(),
        }
    }
}

/// Direct chats that are being searched for a user, one after the other.
#[derive(Debug, PartialEq, Eq)]
pub struct Probing {
    user: UserId,
    rooms: Vec<(Room, DisplayName)>,
    at: usize,
}

/// Finds the direct chat with a user, or creates one.
#[derive(Debug, PartialEq, Eq)]
pub enum DirectMessage {
    /// The direct chats are being listed.
    List(UserId, RoomListing),
    /// The direct chats are being searched for the user.
    Probe(Probing),
    /// A new direct chat is being created.
    Create(UserId),
    /// The new direct chat is being looked up.
    Open(GetRoom),
}

impl View for DirectMessage {
    type V = DirectState;

    closed spec fn view(&self) -> DirectState {
        match self {
            DirectMessage::List(user, listing) => DirectState::List(*user, listing@),
            DirectMessage::Probe(probing) => DirectState::Probe(
                probing.user,
                probing.rooms@.skip(probing.at as int),
            ),
            DirectMessage::Create(user) => DirectState::Create(*user),
            DirectMessage::Open(op) => DirectState::Open(*op),
        }
    }
}

/// The step of the search that a step of the machine stands for.
pub open spec fn direct_step(
    step: Step<DirectMessage, IambResult<(Room, DisplayName)>>,
) -> DirectStep {
    match step {
        Step::Perform(op, action) => Step::Perform(op@, action),
        Step::Done(room) => Step::Done(room),
    }
}

impl DirectMessage {
    /// There is a room to be named, or to be asked.
    pub closed spec fn wf(self) -> bool {
        match self {
            DirectMessage::List(_, listing) => listing.wf(),
            DirectMessage::Probe(probing) => probing.at < probing.rooms@.len(),
            _ => true,
        }
    }

    /// How the search starts: with the list of direct chats.
    pub open spec fn starts(user: UserId) -> DirectStep {
        Step::Perform(
            DirectState::List(user, ListingState::Fetch(Listing::DirectMessages)),
            Action::JoinedRooms,
        )
    }

    /// Starts searching.
    pub fn start(user: UserId) -> (r: Step<DirectMessage, IambResult<(Room, DisplayName)>>)
        ensures
            direct_step(r) == DirectMessage::starts(user),
            r matches Step::Perform(op, _) ==> op.wf(),
    {
        match RoomListing::start(Listing::DirectMessages) {
            Step::Perform(listing, action) => Step::Perform(
                DirectMessage::List(user, listing),
                action,
            ),
            Step::Done(_) => unreached(),
        }
    }

    /// Goes on after an event.
    pub fn step(self, event: Event) -> (r: Step<DirectMessage, IambResult<(Room, DisplayName)>>)
        requires
            self.wf(),
            self@.awaits(event),
        ensures
            direct_step(r) == self@.next(event),
            r matches Step::Perform(op, _) ==> op.wf(),
    {
        match self {
            DirectMessage::List(user, listing) => match listing.step(event) {
                Step::Perform(listing, action) => Step::Perform(
                    DirectMessage::List(user, listing),
                    action,
                ),
                Step::Done(rooms) => {
                    proof {
                        assert(rooms@.skip(0) =~= rooms@);
                    }
                    Probing { user, rooms, at: 0 }.go_on()
                },
            },
            DirectMessage::Probe(probing) => match event {
                Event::Member(member) => probing.answered(member),
                _ => unreached(),
            },
            DirectMessage::Create(user) => match event {
                Event::RoomId(created) => match created {
                    Ok(room_id) => DirectMessage::open(GetRoom::start(room_id)),
                    Err(_) => Step::Done(Err(UIError::Failure(Failure::DirectRoom(user)))),
                },
                _ => unreached(),
            },
            DirectMessage::Open(op) => DirectMessage::open(op.step(event)),
        }
    }

    fn open(step: Step<GetRoom, IambResult<(Room, DisplayName)>>) -> (r: Step<
        DirectMessage,
        IambResult<(Room, DisplayName)>,
    >)
        ensures
            direct_step(r) == after_open(step),
            r matches Step::Perform(op, _) ==> op.wf(),
    {
        match step {
            Step::Perform(op, action) => Step::Perform(DirectMessage::Open(op), action),
            Step::Done(room) => Step::Done(room),
        }
    }
}

impl Probing {
    /// Asks the next direct chat for the user, or creates one.
    fn go_on(self) -> (r: Step<DirectMessage, IambResult<(Room, DisplayName)>>)
        requires
            self.at <= self.rooms@.len(),
        ensures
            direct_step(r) == probe_next(self.user, self.rooms@.skip(self.at as int)),
            r matches Step::Perform(op, _) ==> op.wf(),
    {
        if self.at < self.rooms.len() {
            let room_id = self.rooms[self.at].0.room_id.clone();
            let action = Action::GetMember(room_id, self.user.clone());
            Step::Perform(DirectMessage::Probe(self), action)
        } else {
            let request = CreateRoom {
                is_direct: true,
                invite: self.user.clone(),
                visibility: Visibility::Private,
                preset: RoomPreset::PrivateChat,
            };
            Step::Perform(DirectMessage::Create(self.user), Action::CreateRoom(request))
        }
    }

    /// Takes the answer of the direct chat that was asked.
    fn answered(self, member: Result<bool, ClientError>) -> (r: Step<
        DirectMessage,
        IambResult<(Room, DisplayName)>,
    >)
        requires
            self.at < self.rooms@.len(),
        ensures
            direct_step(r) == DirectState::Probe(
                self.user,
                self.rooms@.skip(self.at as int),
            ).next(Event::Member(member)),
            r matches Step::Perform(op, _) ==> op.wf(),
    {
        match member {
            Ok(true) => {
                let room = self.rooms[self.at].0.clone();
                let name = self.rooms[self.at].1.clone();
                Step::Done(Ok((room, name)))
            },
            Ok(false) => {
                proof {
                    assert(self.at < self.rooms.len());
                    assert(self.rooms@.skip(self.at as int).drop_first() =~= self.rooms@.skip(
                        self.at + 1,
                    ));
                }
                Probing { user: self.user, rooms: self.rooms, at: self.at + 1 }.go_on()
            },
            Err(error) => Step::Done(Err(UIError::client(error))),
        }
    }
}

impl DirectState {
    /// There is a room to be named, or to be asked.
    pub open spec fn wf(self) -> bool {
        match self {
            DirectState::List(_, state) => state.wf(),
            DirectState::Probe(_, rooms) => rooms.len() > 0,
            _ => true,
        }
    }
}

/// A search that is well-formed stands for one that is.
pub proof fn lemma_direct_wf(op: DirectMessage)
    requires
        op.wf(),
    ensures
        op@.wf(),
{
    if let DirectMessage::List(_, listing) = op {
        lemma_listing_wf(listing);
    }
}

/// How far joining a room has come.
#[verifier::ext_equal]
pub ghost enum JoinState {
    /// The room is being joined.
    Join,
    /// The direct chat with a user is being opened.
    Direct(DirectState),
}

/// A step of joining a room.
pub type JoinStep = Step<JoinState, IambResult<RoomId>>;

/// Goes on after a step of opening a direct chat: the chat's room is the result.
pub open spec fn after_direct(step: DirectStep) -> JoinStep {
    match step {
        Step::Perform(state, action) => Step::Perform(JoinState::Direct(state), action),
        Step::Done(Ok((room, _))) => Step::Done(Ok(room.room_id)),
        Step::Done(Err(error)) => Step::Done(Err(error)),
    }
}

impl JoinState {
    /// Whether the event answers what was last asked for.
    pub open spec fn awaits(self, event: Event) -> bool {
        match self {
            JoinState::Join => event is RoomId,
            JoinState::Direct(state) => state.awaits(event),
        }
    }

    /// How joining goes on after an event.
    pub open spec fn next(self, event: Event) -> JoinStep {
        match (self, event) {
            (JoinState::Join, Event::RoomId(Ok(room_id))) => Step::Done(Ok(room_id)),
            (JoinState::Join, Event::RoomId(Err(error))) => Step::Done(
                Err(UIError::Failure(Failure::Join(error.message))),
            ),
            (JoinState::Direct(state), _) => after_direct(state.next(event)),
            _ => arbitrary(),
        }
    }
}

/// Joins a room by its identifier or an alias, or opens the direct chat with a user.
#[derive(Debug, PartialEq, Eq)]
pub enum JoinRoom {
    /// The room is being joined.
    Join,
    /// The direct chat with a user is being opened.
    Direct(DirectMessage),
}

impl View for JoinRoom {
    type V = JoinState;

    open spec fn view(&self) -> JoinState {
        match self {
            JoinRoom::Join => JoinState::Join,
            JoinRoom::Direct(op) => JoinState::Direct(op@),
        }
    }
}

/// The step of joining that a step of the machine stands for.
pub open spec fn join_step(step: Step<JoinRoom, IambResult<RoomId>>) -> JoinStep {
    match step {
        Step::Perform(op, action) => Step::Perform(op@, action),
        Step::Done(room_id) => Step::Done(room_id),
    }
}

impl JoinRoom {
    /// The search for a direct chat is well-formed.
    pub open spec fn wf(self) -> bool {
        match self {
            JoinRoom::Join => true,
            JoinRoom::Direct(op) => op.wf(),
        }
    }

    /// How joining starts, given what the name stands for.
    pub open spec fn starts(name: String, kind: NameKind) -> JoinStep {
        match kind {
            NameKind::RoomOrAlias => Step::Perform(
                JoinState::Join,
                Action::JoinRoomByIdOrAlias(name),
            ),
            NameKind::User => after_direct(DirectMessage::starts(name)),
            NameKind::Invalid => Step::Done(Err(UIError::Failure(Failure::InvalidName(name)))),
        }
    }

    /// Starts joining, given what the name stands for.
    pub fn begin(name: String, kind: NameKind) -> (r: Step<JoinRoom, IambResult<RoomId>>)
        ensures
            join_step(r) == JoinRoom::starts(name, kind),
            r matches Step::Perform(op, _) ==> op.wf(),
    {
        match kind {
            NameKind::RoomOrAlias => Step::Perform(
                JoinRoom::Join,
                Action::JoinRoomByIdOrAlias(name),
            ),
            NameKind::User => JoinRoom::open(DirectMessage::start(name)),
            NameKind::Invalid => Step::Done(Err(UIError::Failure(Failure::InvalidName(name)))),
        }
    }

    /// Starts joining the room that a name stands for. A name that starts like neither a
    /// room nor a user, or tells no server, is refused.
    pub fn start(name: String) -> (r: Step<JoinRoom, IambResult<RoomId>>)
        ensures
            (!starts_with(name@, '#') && !starts_with(name@, '!') && !starts_with(name@, '@'))
                || !name@.contains(':') ==> join_step(r) == JoinStep::Done(
                Err(UIError::Failure(Failure::InvalidName(name))),
            ),
            join_step(r) == JoinRoom::starts(
                name,
                name_kind(room_or_alias_id(name@), user_id(name@)),
            ),
            r matches Step::Perform(op, _) ==> op.wf(),
    {
        let kind = classify_name(name.as_str());
        JoinRoom::begin(name, kind)
    }

    /// Goes on after an event.
    pub fn step(self, event: Event) -> (r: Step<JoinRoom, IambResult<RoomId>>)
        requires
            self.wf(),
            self@.awaits(event),
        ensures
            join_step(r) == self@.next(event),
            r matches Step::Perform(op, _) ==> op.wf(),
    {
        match self {
            JoinRoom::Join => match event {
                Event::RoomId(joined) => match joined {
                    Ok(room_id) => Step::Done(Ok(room_id)),
                    Err(error) => Step::Done(Err(UIError::Failure(Failure::Join(error.message)))),
                },
                _ => unreached(),
            },
            JoinRoom::Direct(op) => JoinRoom::open(op.step(event)),
        }
    }

    fn open(step: Step<DirectMessage, IambResult<(Room, DisplayName)>>) -> (r: Step<
        JoinRoom,
        IambResult<RoomId>,
    >)
        requires
            step matches Step::Perform(op, _) ==> op.wf(),
        ensures
            join_step(r) == after_direct(direct_step(step)),
            r matches Step::Perform(op, _) ==> op.wf(),
    {
        match step {
            Step::Perform(op, action) => Step::Perform(JoinRoom::Direct(op), action),
            Step::Done(opened) => match opened {
                Ok((room, _)) => Step::Done(Ok(room.room_id)),
                Err(error) => Step::Done(Err(error)),
            },
        }
    }
}

/// What the search comes to while the client answers, one event after the other.
pub open spec fn drive(step: DirectStep, events: Seq<Event>) -> DirectStep
    decreases events.len(),
{
    match step {
        Step::Perform(state, _) if events.len() > 0 => drive(
            state.next(events.first()),
            events.drop_first(),
        ),
        _ => step,
    }
}

/// The rooms' answers to being asked for their names.
pub open spec fn name_events(names: Seq<Result<DisplayName, ClientError>>) -> Seq<Event> {
    names.map_values(|name: Result<DisplayName, ClientError>| Event::Name(name))
}

/// The direct chats' answers to being asked for the user.
pub open spec fn member_events(members: Seq<Result<bool, ClientError>>) -> Seq<Event> {
    members.map_values(|member: Result<bool, ClientError>| Event::Member(member))
}

/// The client's answers to a search: the joined rooms, the names of the direct
/// chats among them, and whether the chats have the user in them.
pub open spec fn search_events(
    rooms: Vec<Room>,
    names: Seq<Result<DisplayName, ClientError>>,
    members: Seq<Result<bool, ClientError>>,
) -> Seq<Event> {
    seq![Event::Rooms(rooms)] + name_events(names) + member_events(members)
}

/// The direct chats that are searched: those that have a name.
pub open spec fn chats(
    rooms: Seq<Room>,
    names: Seq<Result<DisplayName, ClientError>>,
) -> Seq<(Room, DisplayName)> {
    with_names(selected(Listing::DirectMessages, rooms), names)
}

/// The first `n` direct chats that were asked do not have the user.
pub open spec fn all_without(members: Seq<Result<bool, ClientError>>, n: int) -> bool {
    forall|i: int| 0 <= i < n ==> (#[trigger] members[i]) == Ok::<bool, ClientError>(false)
}

proof fn lemma_drive_concat(step: DirectStep, a: Seq<Event>, b: Seq<Event>)
    ensures
        drive(step, a + b) == drive(drive(step, a), b),
    decreases a.len(),
{
    if a.len() == 0 {
        assert(a + b =~= b);
    } else if let Step::Perform(state, _) = step {
        assert((a + b).first() == a.first());
        assert((a + b).drop_first() =~= a.drop_first() + b);
        lemma_drive_concat(state.next(a.first()), a.drop_first(), b);
    }
}

proof fn lemma_drive_names(
    user: UserId,
    todo: Seq<Room>,
    named: Seq<(Room, DisplayName)>,
    names: Seq<Result<DisplayName, ClientError>>,
)
    requires
        names.len() == todo.len(),
    ensures
        drive(after_listing(user, name_next(todo, named)), name_events(names)) == probe_next(
            user,
            named + with_names(todo, names),
        ),
    decreases todo.len(),
{
    if todo.len() == 0 {
        assert(named + with_names(todo, names) =~= named);
        assert(name_events(names) =~= Seq::<Event>::empty());
    } else {
        let more = add_named(named, todo.first(), names.first());
        lemma_drive_names(user, todo.drop_first(), more, names.drop_first());
        assert(name_events(names).drop_first() =~= name_events(names.drop_first()));
        assert(more + with_names(todo.drop_first(), names.drop_first()) =~= named + with_names(
            todo,
            names,
        ));
    }
}

proof fn lemma_drive_without(
    user: UserId,
    rooms: Seq<(Room, DisplayName)>,
    members: Seq<Result<bool, ClientError>>,
)
    requires
        members.len() <= rooms.len(),
        all_without(members, members.len() as int),
    ensures
        drive(probe_next(user, rooms), member_events(members)) == probe_next(
            user,
            rooms.skip(members.len() as int),
        ),
    decreases members.len(),
{
    if members.len() == 0 {
        assert(rooms.skip(0) =~= rooms);
        assert(member_events(members) =~= Seq::<Event>::empty());
    } else {
        assert(members.first() == members[0]);
        lemma_drive_without(user, rooms.drop_first(), members.drop_first());
        assert(member_events(members).drop_first() =~= member_events(members.drop_first()));
        assert(rooms.drop_first().skip(members.len() - 1) =~= rooms.skip(members.len() as int));
    }
}

/// The search up to the point where the first direct chats have answered that they
/// do not have the user.
proof fn lemma_search_prefix(
    user: UserId,
    rooms: Vec<Room>,
    names: Seq<Result<DisplayName, ClientError>>,
    members: Seq<Result<bool, ClientError>>,
)
    requires
        names.len() == selected(Listing::DirectMessages, rooms@).len(),
        members.len() <= chats(rooms@, names).len(),
        all_without(members, members.len() as int),
    ensures
        drive(DirectMessage::starts(user), search_events(rooms, names, members)) == probe_next(
            user,
            chats(rooms@, names).skip(members.len() as int),
        ),
{
    let start = DirectMessage::starts(user);
    let todo = selected(Listing::DirectMessages, rooms@);
    let first = seq![Event::Rooms(rooms)];
    lemma_drive_concat(start, first + name_events(names), member_events(members));
    lemma_drive_concat(start, first, name_events(names));
    reveal_with_fuel(drive, 2);
    assert(drive(start, first) == after_listing(user, name_next(todo, Seq::empty())));
    lemma_drive_names(user, todo, Seq::empty(), names);
    assert(Seq::<(Room, DisplayName)>::empty() + with_names(todo, names) =~= chats(rooms@, names));
    lemma_drive_without(user, chats(rooms@, names), members);
}

/// The search up to the answer of the first direct chat that ends it.
proof fn lemma_search_last(
    user: UserId,
    rooms: Vec<Room>,
    names: Seq<Result<DisplayName, ClientError>>,
    members: Seq<Result<bool, ClientError>>,
    n: int,
)
    requires
        names.len() == selected(Listing::DirectMessages, rooms@).len(),
        0 <= n < chats(rooms@, names).len(),
        members.len() == n + 1,
        all_without(members, n),
        members[n] != Ok::<bool, ClientError>(false),
    ensures
        drive(DirectMessage::starts(user), search_events(rooms, names, members))
            == DirectState::Probe(user, chats(rooms@, names).skip(n)).next(
            Event::Member(members[n]),
        ),
{
    let start = DirectMessage::starts(user);
    let before = members.take(n);
    let last = seq![Event::Member(members[n])];
    lemma_search_prefix(user, rooms, names, before);
    assert(search_events(rooms, names, members) =~= search_events(rooms, names, before) + last);
    lemma_drive_concat(start, search_events(rooms, names, before), last);
    reveal_with_fuel(drive, 2);
}

/// The direct chat that is found is the first that has the user in it.
pub proof fn law_first_chat_found(
    user: UserId,
    rooms: Vec<Room>,
    names: Seq<Result<DisplayName, ClientError>>,
    members: Seq<Result<bool, ClientError>>,
    n: int,
)
    requires
        names.len() == selected(Listing::DirectMessages, rooms@).len(),
        0 <= n < chats(rooms@, names).len(),
        members.len() == n + 1,
        all_without(members, n),
        members[n] == Ok::<bool, ClientError>(true),
    ensures
        drive(DirectMessage::starts(user), search_events(rooms, names, members))
            == DirectStep::Done(Ok(chats(rooms@, names)[n])),
{
    lemma_search_last(user, rooms, names, members, n);
}

/// The search ends at the first direct chat that cannot answer, with its error.
pub proof fn law_search_stops_at_error(
    user: UserId,
    rooms: Vec<Room>,
    names: Seq<Result<DisplayName, ClientError>>,
    members: Seq<Result<bool, ClientError>>,
    n: int,
    error: ClientError,
)
    requires
        names.len() == selected(Listing::DirectMessages, rooms@).len(),
        0 <= n < chats(rooms@, names).len(),
        members.len() == n + 1,
        all_without(members, n),
        members[n] == Err::<bool, ClientError>(error),
    ensures
        drive(DirectMessage::starts(user), search_events(rooms, names, members))
            == DirectStep::Done(Err(reported(error))),
{
    lemma_search_last(user, rooms, names, members, n);
}

/// When no direct chat has the user in it, a private room is to be created, with the
/// user invited.
pub proof fn law_chat_requested(
    user: UserId,
    rooms: Vec<Room>,
    names: Seq<Result<DisplayName, ClientError>>,
    members: Seq<Result<bool, ClientError>>,
)
    requires
        names.len() == selected(Listing::DirectMessages, rooms@).len(),
        members.len() == chats(rooms@, names).len(),
        all_without(members, members.len() as int),
    ensures
        drive(DirectMessage::starts(user), search_events(rooms, names, members))
            == DirectStep::Perform(
            DirectState::Create(user),
            Action::CreateRoom(direct_room(user)),
        ),
{
    lemma_search_prefix(user, rooms, names, members);
}

/// A search that creates a room comes to that room, once it has been looked up.
pub proof fn law_chat_created(
    user: UserId,
    rooms: Vec<Room>,
    names: Seq<Result<DisplayName, ClientError>>,
    members: Seq<Result<bool, ClientError>>,
    room_id: RoomId,
    room: Room,
    name: DisplayName,
)
    requires
        names.len() == selected(Listing::DirectMessages, rooms@).len(),
        members.len() == chats(rooms@, names).len(),
        all_without(members, members.len() as int),
    ensures
        drive(
            DirectMessage::starts(user),
            search_events(rooms, names, members) + seq![
                Event::RoomId(Ok(room_id)),
                Event::Room(Some(room)),
                Event::Name(Ok(name)),
            ],
        ) == DirectStep::Done(Ok((room, name))),
{
    let more = seq![
        Event::RoomId(Ok(room_id)),
        Event::Room(Some(room)),
        Event::Name(Ok(name)),
    ];
    law_chat_requested(user, rooms, names, members);
    lemma_drive_concat(DirectMessage::starts(user), search_events(rooms, names, members), more);
    reveal_with_fuel(drive, 4);
}

/// A search whose room cannot be created fails, and names the user.
pub proof fn law_chat_not_created(
    user: UserId,
    rooms: Vec<Room>,
    names: Seq<Result<DisplayName, ClientError>>,
    members: Seq<Result<bool, ClientError>>,
    error: ClientError,
)
    requires
        names.len() == selected(Listing::DirectMessages, rooms@).len(),
        members.len() == chats(rooms@, names).len(),
        all_without(members, members.len() as int),
    ensures
        drive(
            DirectMessage::starts(user),
            search_events(rooms, names, members) + seq![Event::RoomId(Err(error))],
        ) == DirectStep::Done(Err(UIError::Failure(Failure::DirectRoom(user)))),
{
    let more = seq![Event::RoomId(Err::<RoomId, ClientError>(error))];
    law_chat_requested(user, rooms, names, members);
    lemma_drive_concat(DirectMessage::starts(user), search_events(rooms, names, members), more);
    reveal_with_fuel(drive, 2);
}

/// What joining comes to while the client answers, one event after the other.
pub open spec fn drive_join(step: JoinStep, events: Seq<Event>) -> JoinStep
    decreases events.len(),
{
    match step {
        Step::Perform(state, _) if events.len() > 0 => drive_join(
            state.next(events.first()),
            events.drop_first(),
        ),
        _ => step,
    }
}

proof fn lemma_drive_join(step: DirectStep, events: Seq<Event>)
    ensures
        drive_join(after_direct(step), events) == after_direct(drive(step, events)),
    decreases events.len(),
{
    if let Step::Perform(state, _) = step {
        if events.len() > 0 {
            lemma_drive_join(state.next(events.first()), events.drop_first());
        }
    }
}

/// Joining a user comes to the room of the direct chat with the user, just as a search for
/// that chat does, whatever the client answers.
pub proof fn law_join_user_opens_chat(user: UserId, events: Seq<Event>)
    ensures
        drive_join(JoinRoom::starts(user, NameKind::User), events) == after_direct(
            drive(DirectMessage::starts(user), events),
        ),
{
    lemma_drive_join(DirectMessage::starts(user), events);
}

/// Joining a room comes to the room that the server names, or to the server's reason for
/// refusing, word for word.
pub proof fn law_join_room(name: String, joined: Result<RoomId, ClientError>)
    ensures
        drive_join(JoinRoom::starts(name, NameKind::RoomOrAlias), seq![Event::RoomId(joined)])
            == match joined {
            Ok(room_id) => JoinStep::Done(Ok(room_id)),
            Err(error) => JoinStep::Done(Err(UIError::Failure(Failure::Join(error.message)))),
        },
{
    reveal_with_fuel(drive_join, 2);
}

/// The direct chats that are searched: of the joined rooms those that are direct chats and not
/// spaces, and that have told a name.
pub open spec fn searched(
    rooms: Seq<Room>,
    names: Seq<Result<DisplayName, ClientError>>,
) -> Seq<(Room, DisplayName)> {
    that_told(rooms_of(Listing::DirectMessages, rooms), names)
}

proof fn lemma_searched(rooms: Seq<Room>, names: Seq<Result<DisplayName, ClientError>>)
    requires
        names.len() == rooms_of(Listing::DirectMessages, rooms).len(),
    ensures
        names.len() == selected(Listing::DirectMessages, rooms).len(),
        chats(rooms, names) == searched(rooms, names),
{
    law_selection(rooms, arbitrary());
    lemma_with_names_told(rooms_of(Listing::DirectMessages, rooms), names);
}

/// The chat that is opened with a user is the first of the direct chats that has the user in
/// it, and joining the user gives that chat's room by its identifier, whatever the room is
/// called.
pub proof fn law_chat_joined(
    user: UserId,
    rooms: Vec<Room>,
    names: Seq<Result<DisplayName, ClientError>>,
    members: Seq<Result<bool, ClientError>>,
    n: int,
)
    requires
        names.len() == rooms_of(Listing::DirectMessages, rooms@).len(),
        0 <= n < searched(rooms@, names).len(),
        members.len() == n + 1,
        forall|i: int| 0 <= i < n ==> #[trigger] members[i] == Ok::<bool, ClientError>(false),
        members[n] == Ok::<bool, ClientError>(true),
    ensures
        drive(DirectMessage::starts(user), search_events(rooms, names, members))
            == DirectStep::Done(Ok(searched(rooms@, names)[n])),
        drive_join(
            JoinRoom::starts(user, NameKind::User),
            search_events(rooms, names, members),
        ) == JoinStep::Done(Ok(searched(rooms@, names)[n].0.room_id)),
{
    lemma_searched(rooms@, names);
    law_first_chat_found(user, rooms, names, members, n);
    lemma_drive_join(DirectMessage::starts(user), search_events(rooms, names, members));
}

/// A chat that cannot tell whether the user is in it ends the search, and the join, with the
/// client's error as it is.
pub proof fn law_chat_error_kept(
    user: UserId,
    rooms: Vec<Room>,
    names: Seq<Result<DisplayName, ClientError>>,
    members: Seq<Result<bool, ClientError>>,
    n: int,
    error: ClientError,
)
    requires
        names.len() == rooms_of(Listing::DirectMessages, rooms@).len(),
        0 <= n < searched(rooms@, names).len(),
        members.len() == n + 1,
        forall|i: int| 0 <= i < n ==> #[trigger] members[i] == Ok::<bool, ClientError>(false),
        members[n] == Err::<bool, ClientError>(error),
    ensures
        drive(DirectMessage::starts(user), search_events(rooms, names, members))
            == DirectStep::Done(Err(UIError::Application(IambError::Client(error)))),
        drive_join(
            JoinRoom::starts(user, NameKind::User),
            search_events(rooms, names, members),
        ) == JoinStep::Done(Err(UIError::Application(IambError::Client(error)))),
{
    lemma_searched(rooms@, names);
    law_search_stops_at_error(user, rooms, names, members, n, error);
    lemma_drive_join(DirectMessage::starts(user), search_events(rooms, names, members));
}

/// As long as the direct chats answer that they do not have the user, the next one is asked,
/// for this user and in this order.
pub proof fn law_chats_asked_in_order(
    user: UserId,
    rooms: Vec<Room>,
    names: Seq<Result<DisplayName, ClientError>>,
    members: Seq<Result<bool, ClientError>>,
)
    requires
        names.len() == rooms_of(Listing::DirectMessages, rooms@).len(),
        members.len() < searched(rooms@, names).len(),
        forall|i: int|
            0 <= i < members.len() ==> #[trigger] members[i] == Ok::<bool, ClientError>(false),
    ensures
        drive(
            DirectMessage::starts(user),
            search_events(rooms, names, members),
        ) matches Step::Perform(_, action) && action == Action::GetMember(
            searched(rooms@, names)[members.len() as int].0.room_id,
            user,
        ),
        drive_join(
            JoinRoom::starts(user, NameKind::User),
            search_events(rooms, names, members),
        ) matches Step::Perform(_, action) && action == Action::GetMember(
            searched(rooms@, names)[members.len() as int].0.room_id,
            user,
        ),
{
    lemma_searched(rooms@, names);
    lemma_search_prefix(user, rooms, names, members);
    lemma_drive_join(DirectMessage::starts(user), search_events(rooms, names, members));
}

proof fn lemma_name_asked(
    user: UserId,
    todo: Seq<Room>,
    named: Seq<(Room, DisplayName)>,
    names: Seq<Result<DisplayName, ClientError>>,
)
    requires
        names.len() < todo.len(),
    ensures
        drive(
            after_listing(user, name_next(todo, named)),
            name_events(names),
        ) matches Step::Perform(_, action) && action == Action::DisplayName(
            todo[names.len() as int].room_id,
        ),
    decreases names.len(),
{
    if names.len() == 0 {
        assert(name_events(names) =~= Seq::<Event>::empty());
    } else {
        let more = add_named(named, todo.first(), names.first());
        assert(name_events(names).drop_first() =~= name_events(names.drop_first()));
        lemma_name_asked(user, todo.drop_first(), more, names.drop_first());
    }
}

/// The search, and the join of a user, starts with the joined rooms, and then asks each of the
/// direct chats among them for its name, one after the other.
pub proof fn law_search_lists_chats(
    user: UserId,
    rooms: Vec<Room>,
    names: Seq<Result<DisplayName, ClientError>>,
)
    requires
        names.len() < rooms_of(Listing::DirectMessages, rooms@).len(),
    ensures
        DirectMessage::starts(user) matches Step::Perform(_, action) && action
            == Action::JoinedRooms,
        JoinRoom::starts(user, NameKind::User) matches Step::Perform(_, action) && action
            == Action::JoinedRooms,
        drive(
            DirectMessage::starts(user),
            seq![Event::Rooms(rooms)] + name_events(names),
        ) matches Step::Perform(_, action) && action == Action::DisplayName(
            rooms_of(Listing::DirectMessages, rooms@)[names.len() as int].room_id,
        ),
        drive_join(
            JoinRoom::starts(user, NameKind::User),
            seq![Event::Rooms(rooms)] + name_events(names),
        ) matches Step::Perform(_, action) && action == Action::DisplayName(
            rooms_of(Listing::DirectMessages, rooms@)[names.len() as int].room_id,
        ),
{
    let start = DirectMessage::starts(user);
    let first = seq![Event::Rooms(rooms)];
    let todo = selected(Listing::DirectMessages, rooms@);
    law_selection(rooms@, arbitrary());
    lemma_drive_concat(start, first, name_events(names));
    reveal_with_fuel(drive, 2);
    assert(drive(start, first) == after_listing(user, name_next(todo, Seq::empty())));
    lemma_name_asked(user, todo, Seq::empty(), names);
    lemma_drive_join(start, first + name_events(names));
}

/// When no direct chat has the user, a new one is created: a private room for a direct chat,
/// with the user and nobody else invited. If the server refuses, the failure names the user.
pub proof fn law_new_chat_requested(
    user: UserId,
    rooms: Vec<Room>,
    names: Seq<Result<DisplayName, ClientError>>,
    members: Seq<Result<bool, ClientError>>,
    error: ClientError,
)
    requires
        names.len() == rooms_of(Listing::DirectMessages, rooms@).len(),
        members.len() == searched(rooms@, names).len(),
        forall|i: int|
            0 <= i < members.len() ==> #[trigger] members[i] == Ok::<bool, ClientError>(false),
    ensures
        drive_join(
            JoinRoom::starts(user, NameKind::User),
            search_events(rooms, names, members),
        ) matches Step::Perform(_, action) && action matches Action::CreateRoom(request) && {
            &&& request.is_direct
            &&& request.invite == user
            &&& request.visibility is Private
            &&& request.preset is PrivateChat
        },
        drive(
            DirectMessage::starts(user),
            search_events(rooms, names, members) + seq![Event::RoomId(Err(error))],
        ) == DirectStep::Done(Err(UIError::Failure(Failure::DirectRoom(user)))),
        drive_join(
            JoinRoom::starts(user, NameKind::User),
            search_events(rooms, names, members) + seq![Event::RoomId(Err(error))],
        ) == JoinStep::Done(Err(UIError::Failure(Failure::DirectRoom(user)))),
{
    let start = DirectMessage::starts(user);
    let events = search_events(rooms, names, members);
    lemma_searched(rooms@, names);
    law_chat_requested(user, rooms, names, members);
    law_chat_not_created(user, rooms, names, members, error);
    lemma_drive_join(start, events);
    lemma_drive_join(start, events + seq![Event::RoomId(Err(error))]);
}

/// A chat that was created is looked up by the identifier that the server gave it, and comes
/// back as the client has it, with its name; joining the user gives the identifier that the
/// client has for it, whatever the room is called.
pub proof fn law_new_chat_joined(
    user: UserId,
    rooms: Vec<Room>,
    names: Seq<Result<DisplayName, ClientError>>,
    members: Seq<Result<bool, ClientError>>,
    room_id: RoomId,
    room: Room,
    name: DisplayName,
)
    requires
        names.len() == rooms_of(Listing::DirectMessages, rooms@).len(),
        members.len() == searched(rooms@, names).len(),
        forall|i: int|
            0 <= i < members.len() ==> #[trigger] members[i] == Ok::<bool, ClientError>(false),
    ensures
        drive_join(
            JoinRoom::starts(user, NameKind::User),
            search_events(rooms, names, members) + seq![Event::RoomId(Ok(room_id))],
        ) matches Step::Perform(_, action) && action == Action::GetRoom(room_id),
        drive_join(
            JoinRoom::starts(user, NameKind::User),
            search_events(rooms, names, members) + seq![
                Event::RoomId(Ok(room_id)),
                Event::Room(Some(room)),
            ],
        ) matches Step::Perform(_, action) && action == Action::DisplayName(room.room_id),
        drive(
            DirectMessage::starts(user),
            search_events(rooms, names, members) + seq![
                Event::RoomId(Ok(room_id)),
                Event::Room(Some(room)),
                Event::Name(Ok(name)),
            ],
        ) == DirectStep::Done(Ok((room, name))),
        drive_join(
            JoinRoom::starts(user, NameKind::User),
            search_events(rooms, names, members) + seq![
                Event::RoomId(Ok(room_id)),
                Event::Room(Some(room)),
                Event::Name(Ok(name)),
            ],
        ) == JoinStep::Done(Ok(room.room_id)),
{
    let start = DirectMessage::starts(user);
    let events = search_events(rooms, names, members);
    let created = seq![Event::RoomId(Ok::<RoomId, ClientError>(room_id))];
    let found = seq![Event::RoomId(Ok::<RoomId, ClientError>(room_id)), Event::Room(Some(room))];
    let shown = seq![
        Event::RoomId(Ok::<RoomId, ClientError>(room_id)),
        Event::Room(Some(room)),
        Event::Name(Ok::<DisplayName, ClientError>(name)),
    ];
    lemma_searched(rooms@, names);
    law_chat_requested(user, rooms, names, members);
    law_chat_created(user, rooms, names, members, room_id, room, name);
    lemma_drive_concat(start, events, created);
    lemma_drive_concat(start, events, found);
    reveal_with_fuel(drive, 4);
    lemma_drive_join(start, events + created);
    lemma_drive_join(start, events + found);
    lemma_drive_join(start, events + shown);
}

/// A chat that was created and is not there is reported by its identifier, and one that cannot
/// tell its name with the client's error, by the search and by the join alike.
pub proof fn law_new_chat_lost(
    user: UserId,
    rooms: Vec<Room>,
    names: Seq<Result<DisplayName, ClientError>>,
    members: Seq<Result<bool, ClientError>>,
    room_id: RoomId,
    room: Room,
    error: ClientError,
)
    requires
        names.len() == rooms_of(Listing::DirectMessages, rooms@).len(),
        members.len() == searched(rooms@, names).len(),
        forall|i: int|
            0 <= i < members.len() ==> #[trigger] members[i] == Ok::<bool, ClientError>(false),
    ensures
        drive(
            DirectMessage::starts(user),
            search_events(rooms, names, members) + seq![
                Event::RoomId(Ok(room_id)),
                Event::Room(None),
            ],
        ) == DirectStep::Done(Err(UIError::Application(IambError::UnknownRoom(room_id)))),
        drive_join(
            JoinRoom::starts(user, NameKind::User),
            search_events(rooms, names, members) + seq![
                Event::RoomId(Ok(room_id)),
                Event::Room(None),
            ],
        ) == JoinStep::Done(Err(UIError::Application(IambError::UnknownRoom(room_id)))),
        drive(
            DirectMessage::starts(user),
            search_events(rooms, names, members) + seq![
                Event::RoomId(Ok(room_id)),
                Event::Room(Some(room)),
                Event::Name(Err(error)),
            ],
        ) == DirectStep::Done(Err(UIError::Application(IambError::Client(error)))),
        drive_join(
            JoinRoom::starts(user, NameKind::User),
            search_events(rooms, names, members) + seq![
                Event::RoomId(Ok(room_id)),
                Event::Room(Some(room)),
                Event::Name(Err(error)),
            ],
        ) == JoinStep::Done(Err(UIError::Application(IambError::Client(error)))),
{
    let start = DirectMessage::starts(user);
    let events = search_events(rooms, names, members);
    let gone = seq![Event::RoomId(Ok::<RoomId, ClientError>(room_id)), Event::Room(None)];
    let mute = seq![
        Event::RoomId(Ok::<RoomId, ClientError>(room_id)),
        Event::Room(Some(room)),
        Event::Name(Err::<DisplayName, ClientError>(error)),
    ];
    lemma_searched(rooms@, names);
    law_chat_requested(user, rooms, names, members);
    lemma_drive_concat(start, events, gone);
    lemma_drive_concat(start, events, mute);
    reveal_with_fuel(drive, 4);
    lemma_drive_join(start, events + gone);
    lemma_drive_join(start, events + mute);
}

/// A room is joined under the very name that was given, and a name that is neither a room nor
/// a user is refused, with the name in the failure, before anything is asked of the client.
pub proof fn law_join_starts(name: String)
    ensures
        JoinRoom::starts(name, NameKind::RoomOrAlias) matches Step::Perform(_, action) && action
            == Action::JoinRoomByIdOrAlias(name),
        JoinRoom::starts(name, NameKind::Invalid) == JoinStep::Done(
            Err(UIError::Failure(Failure::InvalidName(name))),
        ),
{
}

/// A step of a search or of a join stands for itself: the action is the one that is asked for,
/// and the result is the one that comes back.
pub proof fn law_direct_steps(
    search: DirectMessage,
    join: JoinRoom,
    action: Action,
    found: IambResult<(Room, DisplayName)>,
    joined: IambResult<RoomId>,
)
    ensures
        direct_step(Step::Perform(search, action)) == DirectStep::Perform(search@, action),
        direct_step(Step::Done(found)) == DirectStep::Done(found),
        join_step(Step::Perform(join, action)) == JoinStep::Perform(join@, action),
        join_step(Step::Done(joined)) == JoinStep::Done(joined),
{
}

} // verus!

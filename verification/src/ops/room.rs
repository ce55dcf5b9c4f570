//! Operations on one room.
use matrix_sdk::ruma::events::room::name::RoomNameEventContent;

use vstd::pervasive::unreached;
use vstd::prelude::*;

use crate::base::{
    reported, unknown_room, ClientError, DisplayName, IambError, IambResult, MessageFetchResult,
    Room, RoomId, RoomMember, SetRoomField, SpaceChild, UIError,
};
use crate::client::{
    Action, Direction, Event, MessagesRequest, SpaceHierarchyRequest, StateContent, Step,
};
use crate::timeline::{
    law_messages_are_filtered, messages_of, room_messages, timeline_kind, timeline_kinds,
};

verus! {

/// Finds a room and its display name.
#[derive(Debug, PartialEq, Eq)]
pub enum GetRoom {
    /// The room is being looked up.
    Lookup(RoomId),
    /// The room was found, and is being asked for its name.
    Name(Room),
}

impl GetRoom {
    /// Whether the event answers what the operation last asked for.
    pub open spec fn awaits(self, event: Event) -> bool {
        match self {
            GetRoom::Lookup(_) => event is Room,
            GetRoom::Name(_) => event is Name,
        }
    }

    /// How the operation starts.
    pub open spec fn starts(room_id: RoomId) -> Step<GetRoom, IambResult<(Room, DisplayName)>> {
        Step::Perform(GetRoom::Lookup(room_id), Action::GetRoom(room_id))
    }

    /// How the operation goes on after an event.
    pub open spec fn next(self, event: Event) -> Step<GetRoom, IambResult<(Room, DisplayName)>> {
        match (self, event) {
            (GetRoom::Lookup(_), Event::Room(Some(room))) => Step::Perform(
                GetRoom::Name(room),
                Action::DisplayName(room.room_id),
            ),
            (GetRoom::Lookup(room_id), Event::Room(None)) => Step::Done(
                Err(unknown_room(room_id)),
            ),
            (GetRoom::Name(room), Event::Name(Ok(name))) => Step::Done(Ok((room, name))),
            (GetRoom::Name(_), Event::Name(Err(error))) => Step::Done(Err(reported(error))),
            _ => arbitrary(),
        }
    }

    /// Starts looking for a room.
    pub fn start(room_id: RoomId) -> (r: Step<GetRoom, IambResult<(Room, DisplayName)>>)
        ensures
            r == GetRoom::starts(room_id),
    {
        let action = Action::GetRoom(room_id.clone());
        Step::Perform(GetRoom::Lookup(room_id), action)
    }

    /// Goes on after an event.
    pub fn step(self, event: Event) -> (r: Step<GetRoom, IambResult<(Room, DisplayName)>>)
        requires
            self.awaits(event),
        ensures
            r == self.next(event),
    {
        match (self, event) {
            (GetRoom::Lookup(room_id), Event::Room(found)) => match found {
                Some(room) => {
                    let action = Action::DisplayName(room.room_id.clone());
                    Step::Perform(GetRoom::Name(room), action)
                },
                None => Step::Done(Err(UIError::unknown_room(room_id))),
            },
            (GetRoom::Name(room), Event::Name(name)) => match name {
                Ok(name) => Step::Done(Ok((room, name))),
                Err(error) => Step::Done(Err(UIError::client(error))),
            },
            _ => unreached(),
        }
    }
}

/// Lists a room's active members.
#[derive(Debug, PartialEq, Eq)]
pub enum Members {
    /// The room is being looked up.
    Lookup(RoomId),
    /// The room was found, and is being asked for its members.
    Fetch,
}

impl Members {
    /// Whether the event answers what the operation last asked for.
    pub open spec fn awaits(self, event: Event) -> bool {
        match self {
            Members::Lookup(_) => event is Room,
            Members::Fetch => event is Members,
        }
    }

    /// How the operation starts.
    pub open spec fn starts(room_id: RoomId) -> Step<Members, IambResult<Vec<RoomMember>>> {
        Step::Perform(Members::Lookup(room_id), Action::GetRoom(room_id))
    }

    /// How the operation goes on after an event.
    pub open spec fn next(self, event: Event) -> Step<Members, IambResult<Vec<RoomMember>>> {
        match (self, event) {
            (Members::Lookup(_), Event::Room(Some(room))) => Step::Perform(
                Members::Fetch,
                Action::ActiveMembers(room.room_id),
            ),
            (Members::Lookup(room_id), Event::Room(None)) => Step::Done(
                Err(unknown_room(room_id)),
            ),
            (Members::Fetch, Event::Members(Ok(members))) => Step::Done(Ok(members)),
            (Members::Fetch, Event::Members(Err(error))) => Step::Done(Err(reported(error))),
            _ => arbitrary(),
        }
    }

    /// Starts listing a room's members.
    pub fn start(room_id: RoomId) -> (r: Step<Members, IambResult<Vec<RoomMember>>>)
        ensures
            r == Members::starts(room_id),
    {
        let action = Action::GetRoom(room_id.clone());
        Step::Perform(Members::Lookup(room_id), action)
    }

    /// Goes on after an event.
    pub fn step(self, event: Event) -> (r: Step<Members, IambResult<Vec<RoomMember>>>)
        requires
            self.awaits(event),
        ensures
            r == self.next(event),
    {
        match (self, event) {
            (Members::Lookup(room_id), Event::Room(found)) => match found {
                Some(room) => Step::Perform(Members::Fetch, Action::ActiveMembers(room.room_id)),
                None => Step::Done(Err(UIError::unknown_room(room_id))),
            },
            (Members::Fetch, Event::Members(members)) => match members {
                Ok(members) => Step::Done(Ok(members)),
                Err(error) => Step::Done(Err(UIError::client(error))),
            },
            _ => unreached(),
        }
    }
}

/// Tells a room that the user is typing.
#[derive(Debug, PartialEq, Eq)]
pub enum TypingNotice {
    /// The room is being looked up.
    Lookup,
    /// The room was found, and is being told.
    Notify,
}

impl TypingNotice {
    /// Whether the event answers what the operation last asked for.
    pub open spec fn awaits(self, event: Event) -> bool {
        match self {
            TypingNotice::Lookup => event is Room,
            TypingNotice::Notify => event is Done,
        }
    }

    /// How the operation starts.
    pub open spec fn starts(room_id: RoomId) -> Step<TypingNotice, ()> {
        Step::Perform(TypingNotice::Lookup, Action::GetJoinedRoom(room_id))
    }

    /// How the operation goes on after an event. Nobody learns whether it worked.
    pub open spec fn next(self, event: Event) -> Step<TypingNotice, ()> {
        match (self, event) {
            (TypingNotice::Lookup, Event::Room(Some(room))) => Step::Perform(
                TypingNotice::Notify,
                Action::TypingNotice(room.room_id, true),
            ),
            (TypingNotice::Lookup, Event::Room(None)) => Step::Done(()),
            (TypingNotice::Notify, Event::Done(_)) => Step::Done(()),
            _ => arbitrary(),
        }
    }

    /// Starts telling a room that the user is typing.
    pub fn start(room_id: RoomId) -> (r: Step<TypingNotice, ()>)
        ensures
            r == TypingNotice::starts(room_id),
    {
        Step::Perform(TypingNotice::Lookup, Action::GetJoinedRoom(room_id))
    }

    /// Goes on after an event.
    pub fn step(self, event: Event) -> (r: Step<TypingNotice, ()>)
        requires
            self.awaits(event),
        ensures
            r == self.next(event),
    {
        match (self, event) {
            (TypingNotice::Lookup, Event::Room(found)) => match found {
                Some(room) => Step::Perform(
                    TypingNotice::Notify,
                    Action::TypingNotice(room.room_id, true),
                ),
                None => Step::Done(()),
            },
            (TypingNotice::Notify, Event::Done(_)) => Step::Done(()),
            _ => unreached(),
        }
    }
}

/// The state event that sets a field: an empty name takes the room's name away.
pub open spec fn state_content(field: SetRoomField) -> StateContent {
    match field {
        SetRoomField::Name(name) => StateContent::Name(named(name)),
        SetRoomField::Topic(topic) => StateContent::Topic(topic),
    }
}

/// The name, if it is not empty.
pub open spec fn named(name: String) -> Option<String> {
    if name@.len() == 0 {
        None
    } else {
        Some(name)
    }
}

/// Calls `RoomNameEventContent::new` with the name, and takes the name out of the
/// event that it makes.
///
/// The contract claims that an empty name becomes no name, and that any other name
/// is kept.
#[verifier::external_body]
fn room_name_content(name: String) -> (r: Option<String>)
    ensures
        r == named(name),
{
    RoomNameEventContent::new(name.into()).name
}

/// Makes the state event that sets a field.
pub fn make_state_content(field: SetRoomField) -> (r: StateContent)
    ensures
        r == state_content(field),
{
    match field {
        SetRoomField::Name(name) => StateContent::Name(room_name_content(name)),
        SetRoomField::Topic(topic) => StateContent::Topic(topic),
    }
}

/// Sets a field of a room.
#[derive(Debug, PartialEq, Eq)]
pub enum SetRoom {
    /// The room is being looked up.
    Lookup(RoomId, SetRoomField),
    /// The room was found, and the field is being set.
    Send,
}

impl SetRoom {
    /// Whether the event answers what the operation last asked for.
    pub open spec fn awaits(self, event: Event) -> bool {
        match self {
            SetRoom::Lookup(_, _) => event is Room,
            SetRoom::Send => event is Done,
        }
    }

    /// How the operation starts.
    pub open spec fn starts(room_id: RoomId, field: SetRoomField) -> Step<SetRoom, IambResult<()>> {
        Step::Perform(SetRoom::Lookup(room_id, field), Action::GetJoinedRoom(room_id))
    }

    /// How the operation goes on after an event.
    pub open spec fn next(self, event: Event) -> Step<SetRoom, IambResult<()>> {
        match (self, event) {
            (SetRoom::Lookup(_, field), Event::Room(Some(room))) => Step::Perform(
                SetRoom::Send,
                Action::SendStateEvent(room.room_id, state_content(field)),
            ),
            (SetRoom::Lookup(room_id, _), Event::Room(None)) => Step::Done(
                Err(unknown_room(room_id)),
            ),
            (SetRoom::Send, Event::Done(Ok(_))) => Step::Done(Ok(())),
            (SetRoom::Send, Event::Done(Err(error))) => Step::Done(Err(reported(error))),
            _ => arbitrary(),
        }
    }

    /// Starts setting a field.
    pub fn start(room_id: RoomId, field: SetRoomField) -> (r: Step<SetRoom, IambResult<()>>)
        ensures
            r == SetRoom::starts(room_id, field),
    {
        let action = Action::GetJoinedRoom(room_id.clone());
        Step::Perform(SetRoom::Lookup(room_id, field), action)
    }

    /// Goes on after an event.
    pub fn step(self, event: Event) -> (r: Step<SetRoom, IambResult<()>>)
        requires
            self.awaits(event),
        ensures
            r == self.next(event),
    {
        match (self, event) {
            (SetRoom::Lookup(room_id, field), Event::Room(found)) => match found {
                Some(room) => {
                    let content = make_state_content(field);
                    Step::Perform(SetRoom::Send, Action::SendStateEvent(room.room_id, content))
                },
                None => Step::Done(Err(UIError::unknown_room(room_id))),
            },
            (SetRoom::Send, Event::Done(done)) => match done {
                Ok(_) => Step::Done(Ok(())),
                Err(error) => Step::Done(Err(UIError::client(error))),
            },
            _ => unreached(),
        }
    }
}

/// The most rooms of a space that are listed.
pub const SPACE_LIMIT: u32 = 1000;

/// How many levels of a space are listed.
pub const SPACE_DEPTH: u32 = 1;

/// Lists the rooms of a space.
#[derive(Debug, PartialEq, Eq)]
pub enum SpaceMembers {
    /// The space is being asked for its rooms.
    Fetch,
}

/// The identifiers of the rooms of a space.
pub open spec fn child_ids(children: Seq<SpaceChild>) -> Seq<RoomId> {
    children.map_values(|child: SpaceChild| child.room_id)
}

/// Takes the identifiers out of the rooms of a space.
pub fn take_child_ids(children: &Vec<SpaceChild>) -> (r: Vec<RoomId>)
    ensures
        r@ == child_ids(children@),
{
    let mut ids: Vec<RoomId> = Vec::new();
    let mut i: usize = 0;
    while i < children.len()
        invariant
            i <= children@.len(),
            ids@ == child_ids(children@).take(i as int),
        decreases children@.len() - i,
    {
        ids.push(children[i].room_id.clone());
        i = i + 1;
    }
    proof {
        assert(ids@ =~= child_ids(children@));
    }
    ids
}

/// The identifiers that a listing of a space holds.
pub open spec fn listed_ids(r: IambResult<Vec<RoomId>>) -> IambResult<Seq<RoomId>> {
    match r {
        Ok(ids) => Ok(ids@),
        Err(error) => Err(error),
    }
}

impl SpaceMembers {
    /// Whether the event answers what the operation last asked for.
    pub open spec fn awaits(self, event: Event) -> bool {
        event is Children
    }

    /// How the operation starts.
    pub open spec fn starts(space: RoomId) -> Step<SpaceMembers, IambResult<Vec<RoomId>>> {
        Step::Perform(
            SpaceMembers::Fetch,
            Action::SpaceHierarchy(
                SpaceHierarchyRequest { space, limit: SPACE_LIMIT, max_depth: SPACE_DEPTH },
            ),
        )
    }

    /// What the operation comes to.
    pub open spec fn result(self, event: Event) -> IambResult<Seq<RoomId>> {
        match event {
            Event::Children(Ok(children)) => Ok(child_ids(children@)),
            Event::Children(Err(error)) => Err(reported(error)),
            _ => arbitrary(),
        }
    }

    /// Starts listing the rooms of a space.
    pub fn start(space: RoomId) -> (r: Step<SpaceMembers, IambResult<Vec<RoomId>>>)
        ensures
            r == SpaceMembers::starts(space),
    {
        let request = SpaceHierarchyRequest { space, limit: SPACE_LIMIT, max_depth: SPACE_DEPTH };
        Step::Perform(SpaceMembers::Fetch, Action::SpaceHierarchy(request))
    }

    /// Goes on after an event: the operation is over.
    pub fn step(self, event: Event) -> (r: Step<SpaceMembers, IambResult<Vec<RoomId>>>)
        requires
            self.awaits(event),
        ensures
            r matches Step::Done(ids) && listed_ids(ids) == self.result(event),
    {
        match event {
            Event::Children(children) => match children {
                Ok(children) => Step::Done(Ok(take_child_ids(&children))),
                Err(error) => Step::Done(Err(UIError::client(error))),
            },
            _ => unreached(),
        }
    }
}

/// Fetches a page of a room's history, going backward.
#[derive(Debug, PartialEq, Eq)]
pub enum LoadOlder {
    /// The room is being looked up.
    Lookup {
        /// The room.
        room_id: RoomId,
        /// Where the page starts.
        fetch_id: Option<String>,
        /// How many events the page has at most.
        limit: u32,
    },
    /// The room was found, and is being asked for the page.
    Fetch,
}

/// The page that a fetch comes to.
pub open spec fn fetched(r: MessageFetchResult) -> IambResult<(Option<String>, Seq<String>)> {
    match r {
        Ok((end, messages)) => Ok((end, messages@)),
        Err(error) => Err(error),
    }
}

impl LoadOlder {
    /// Whether the event answers what the operation last asked for.
    pub open spec fn awaits(self, event: Event) -> bool {
        match self {
            LoadOlder::Lookup { .. } => event is Room,
            LoadOlder::Fetch => event is Messages,
        }
    }

    /// How the operation starts.
    pub open spec fn starts(room_id: RoomId, fetch_id: Option<String>, limit: u32) -> Step<
        LoadOlder,
        MessageFetchResult,
    > {
        Step::Perform(LoadOlder::Lookup { room_id, fetch_id, limit }, Action::GetRoom(room_id))
    }

    /// How the operation goes on after an event.
    pub open spec fn next(self, event: Event) -> Step<
        LoadOlder,
        IambResult<(Option<String>, Seq<String>)>,
    > {
        match (self, event) {
            (LoadOlder::Lookup { fetch_id, limit, .. }, Event::Room(Some(room))) => Step::Perform(
                LoadOlder::Fetch,
                Action::Messages(
                    room.room_id,
                    MessagesRequest { direction: Direction::Backward, from: fetch_id, limit },
                ),
            ),
            (LoadOlder::Lookup { room_id, .. }, Event::Room(None)) => Step::Done(
                Err(unknown_room(room_id)),
            ),
            (LoadOlder::Fetch, Event::Messages(Ok((end, chunk)))) => Step::Done(
                Ok((end, messages_of(chunk@, timeline_kinds(chunk@)))),
            ),
            (LoadOlder::Fetch, Event::Messages(Err(error))) => Step::Done(Err(reported(error))),
            _ => arbitrary(),
        }
    }

    /// Starts fetching a page.
    pub fn start(room_id: RoomId, fetch_id: Option<String>, limit: u32) -> (r: Step<
        LoadOlder,
        MessageFetchResult,
    >)
        ensures
            r == LoadOlder::starts(room_id, fetch_id, limit),
    {
        let action = Action::GetRoom(room_id.clone());
        Step::Perform(LoadOlder::Lookup { room_id, fetch_id, limit }, action)
    }

    /// Goes on after an event.
    pub fn step(self, event: Event) -> (r: Step<LoadOlder, MessageFetchResult>)
        requires
            self.awaits(event),
        ensures
            match r {
                Step::Perform(op, action) => self.next(event) == Step::<
                    LoadOlder,
                    IambResult<(Option<String>, Seq<String>)>,
                >::Perform(op, action),
                Step::Done(page) => self.next(event) == Step::<
                    LoadOlder,
                    IambResult<(Option<String>, Seq<String>)>,
                >::Done(fetched(page)),
            },
    {
        match (self, event) {
            (LoadOlder::Lookup { room_id, fetch_id, limit }, Event::Room(found)) => match found {
                Some(room) => {
                    let request = MessagesRequest {
                        direction: Direction::Backward,
                        from: fetch_id,
                        limit,
                    };
                    Step::Perform(LoadOlder::Fetch, Action::Messages(room.room_id, request))
                },
                None => Step::Done(Err(UIError::unknown_room(room_id))),
            },
            (LoadOlder::Fetch, Event::Messages(page)) => match page {
                Ok((end, chunk)) => Step::Done(Ok((end, room_messages(&chunk)))),
                Err(error) => Step::Done(Err(UIError::client(error))),
            },
            _ => unreached(),
        }
    }
}

/// A room that the client does not know is reported as unknown, whatever was asked of it,
/// and the client is asked for nothing else. Only a typing notice goes unreported.
pub proof fn law_unknown_room_reported(
    room_id: RoomId,
    fetch_id: Option<String>,
    limit: u32,
    field: SetRoomField,
)
    ensures
        GetRoom::starts(room_id) matches Step::Perform(op, _) && op.next(Event::Room(None))
            == Step::<GetRoom, IambResult<(Room, DisplayName)>>::Done(Err(unknown_room(room_id))),
        Members::starts(room_id) matches Step::Perform(op, _) && op.next(Event::Room(None))
            == Step::<Members, IambResult<Vec<RoomMember>>>::Done(Err(unknown_room(room_id))),
        LoadOlder::starts(room_id, fetch_id, limit) matches Step::Perform(op, _) && op.next(
            Event::Room(None),
        ) == Step::<LoadOlder, IambResult<(Option<String>, Seq<String>)>>::Done(
            Err(unknown_room(room_id)),
        ),
        SetRoom::starts(room_id, field) matches Step::Perform(op, _) && op.next(Event::Room(None))
            == Step::<SetRoom, IambResult<()>>::Done(Err(unknown_room(room_id))),
        TypingNotice::starts(room_id) matches Step::Perform(op, _) && op.next(Event::Room(None))
            == Step::<TypingNotice, ()>::Done(()),
{
}

/// A page is fetched from the room that was found, going backward from the place that was
/// given, with the limit that was given.
pub proof fn law_page_requested(
    room_id: RoomId,
    fetch_id: Option<String>,
    limit: u32,
    room: Room,
)
    ensures
        LoadOlder::starts(room_id, fetch_id, limit) matches Step::Perform(op, _) && op.next(
            Event::Room(Some(room)),
        ) == Step::<LoadOlder, IambResult<(Option<String>, Seq<String>)>>::Perform(
            LoadOlder::Fetch,
            Action::Messages(
                room.room_id,
                MessagesRequest { direction: Direction::Backward, from: fetch_id, limit },
            ),
        ),
{
}

/// Setting a room's name to nothing takes the name away, and setting it to anything else
/// names the room just so.
pub proof fn law_empty_name_removed(name: String)
    ensures
        name@.len() == 0 ==> state_content(SetRoomField::Name(name)) == StateContent::Name(None),
        name@.len() > 0 ==> state_content(SetRoomField::Name(name)) == StateContent::Name(
            Some(name),
        ),
{
}

/// A page that was fetched comes to its messages alone, in the order of the page, and to
/// the place where the next page starts.
pub proof fn law_page_filtered(end: Option<String>, chunk: Vec<String>)
    ensures
        LoadOlder::Fetch.next(Event::Messages(Ok((end, chunk)))) == Step::<
            LoadOlder,
            IambResult<(Option<String>, Seq<String>)>,
        >::Done(
            Ok((end, chunk@.filter(|json: String| timeline_kind(json@) is RoomMessage))),
        ),
{
    law_messages_are_filtered(chunk@);
}

/// A room is found by the identifier that was given, and comes back as the client has it, with
/// the name that this very room has told, of whichever kind; a name that cannot be told is
/// reported with the client's error, and a room that is not there with the identifier.
pub proof fn law_room_found(room_id: RoomId, room: Room, name: Result<DisplayName, ClientError>)
    ensures
        GetRoom::starts(room_id) matches Step::Perform(op, asked) && {
            &&& asked == Action::GetRoom(room_id)
            &&& op.next(Event::Room(Some(room))) matches Step::Perform(named, ask) && {
                &&& ask == Action::DisplayName(room.room_id)
                &&& name matches Ok(shown) ==> named.next(Event::Name(name)) == Step::<
                    GetRoom,
                    IambResult<(Room, DisplayName)>,
                >::Done(Ok((room, shown)))
                &&& name matches Err(error) ==> named.next(Event::Name(name)) == Step::<
                    GetRoom,
                    IambResult<(Room, DisplayName)>,
                >::Done(Err(UIError::Application(IambError::Client(error))))
            }
            &&& op.next(Event::Room(None)) == Step::<
                GetRoom,
                IambResult<(Room, DisplayName)>,
            >::Done(
                Err(UIError::Application(IambError::UnknownRoom(room_id))),
            )
        },
{
}

/// The members that the client lists of the room that was found are the members that come
/// back, all of them, as they are and in the same order.
pub proof fn law_members_listed(
    room_id: RoomId,
    room: Room,
    members: Result<Vec<RoomMember>, ClientError>,
)
    ensures
        Members::starts(room_id) matches Step::Perform(op, asked) && {
            &&& asked == Action::GetRoom(room_id)
            &&& op.next(Event::Room(Some(room))) matches Step::Perform(fetch, ask) && {
                &&& ask == Action::ActiveMembers(room.room_id)
                &&& members matches Ok(listed) ==> fetch.next(Event::Members(members)) == Step::<
                    Members,
                    IambResult<Vec<RoomMember>>,
                >::Done(Ok(listed))
                &&& members matches Err(error) ==> fetch.next(Event::Members(members)) == Step::<
                    Members,
                    IambResult<Vec<RoomMember>>,
                >::Done(Err(UIError::Application(IambError::Client(error))))
            }
            &&& op.next(Event::Room(None)) == Step::<Members, IambResult<Vec<RoomMember>>>::Done(
                Err(UIError::Application(IambError::UnknownRoom(room_id))),
            )
        },
{
}

/// A typing notice goes to the room that was found among those that the user has joined, and
/// says that the user is typing; the notice ends the same way whether it works or not.
pub proof fn law_typing_told(room_id: RoomId, room: Room, told: Result<(), ClientError>)
    ensures
        TypingNotice::starts(room_id) matches Step::Perform(op, asked) && {
            &&& asked == Action::GetJoinedRoom(room_id)
            &&& op.next(Event::Room(Some(room))) matches Step::Perform(notify, ask) && {
                &&& ask == Action::TypingNotice(room.room_id, true)
                &&& notify.next(Event::Done(told)) is Done
            }
            &&& op.next(Event::Room(None)) is Done
        },
{
}

/// A topic is set in the room that was found among those that the user has joined, word for
/// word.
pub proof fn law_topic_set(
    room_id: RoomId,
    topic: String,
    room: Room,
    done: Result<(), ClientError>,
)
    ensures
        SetRoom::starts(room_id, SetRoomField::Topic(topic)) matches Step::Perform(op, asked) && {
            &&& asked == Action::GetJoinedRoom(room_id)
            &&& op.next(Event::Room(Some(room))) matches Step::Perform(send, ask) && {
                &&& ask == Action::SendStateEvent(room.room_id, StateContent::Topic(topic))
                &&& done is Ok ==> (send.next(Event::Done(done)) matches Step::Done(r) && r is Ok)
                &&& done matches Err(error) ==> send.next(Event::Done(done)) == Step::<
                    SetRoom,
                    IambResult<()>,
                >::Done(Err(UIError::Application(IambError::Client(error))))
            }
            &&& op.next(Event::Room(None)) == Step::<SetRoom, IambResult<()>>::Done(
                Err(UIError::Application(IambError::UnknownRoom(room_id))),
            )
        },
{
}

/// A name is set in the room that was found among those that the user has joined, word for
/// word, unless it is empty: then the room's name is taken away.
pub proof fn law_name_set(
    room_id: RoomId,
    name: String,
    room: Room,
    done: Result<(), ClientError>,
)
    ensures
        SetRoom::starts(room_id, SetRoomField::Name(name)) matches Step::Perform(op, asked) && {
            &&& asked == Action::GetJoinedRoom(room_id)
            &&& op.next(Event::Room(Some(room))) matches Step::Perform(send, ask) && {
                &&& name@.len() > 0 ==> ask == Action::SendStateEvent(
                    room.room_id,
                    StateContent::Name(Some(name)),
                )
                &&& name@.len() == 0 ==> ask == Action::SendStateEvent(
                    room.room_id,
                    StateContent::Name(None),
                )
                &&& done is Ok ==> (send.next(Event::Done(done)) matches Step::Done(r) && r is Ok)
                &&& done matches Err(error) ==> send.next(Event::Done(done)) == Step::<
                    SetRoom,
                    IambResult<()>,
                >::Done(Err(UIError::Application(IambError::Client(error))))
            }
            &&& op.next(Event::Room(None)) == Step::<SetRoom, IambResult<()>>::Done(
                Err(UIError::Application(IambError::UnknownRoom(room_id))),
            )
        },
{
}

/// A space is asked for a thousand rooms at most, one level deep. Every room that the server
/// lists is in the result, in its place and by its identifier, and nothing else is.
pub proof fn law_space_rooms_kept(space: RoomId, children: Vec<SpaceChild>, error: ClientError)
    ensures
        SpaceMembers::starts(space) matches Step::Perform(op, asked) && {
            &&& asked matches Action::SpaceHierarchy(request) && request.space == space
                && request.limit == 1000 && request.max_depth == 1
            &&& op.result(Event::Children(Ok(children))) matches Ok(ids) && ids.len()
                == children@.len() && forall|i: int|
                0 <= i < children@.len() ==> #[trigger] ids[i] == children@[i].room_id
            &&& op.result(Event::Children(Err(error))) == Err::<Seq<RoomId>, UIError>(
                UIError::Application(IambError::Client(error)),
            )
        },
{
}

/// The identifiers that come back are those of the rooms that were handed in, one for one.
pub proof fn law_child_ids(children: Seq<SpaceChild>)
    ensures
        child_ids(children).len() == children.len(),
        forall|i: int|
            0 <= i < children.len() ==> #[trigger] child_ids(children)[i] == children[i].room_id,
{
}

/// A listing of a space holds the identifiers that it was made of, all of them and no others,
/// and a failed one its error.
pub proof fn law_listed_ids(ids: Vec<RoomId>, error: UIError)
    ensures
        listed_ids(Ok(ids)) == Ok::<Seq<RoomId>, UIError>(ids@),
        listed_ids(Err(error)) == Err::<Seq<RoomId>, UIError>(error),
{
}

/// A page is fetched from the room that was found, backward from the place that was given,
/// with the limit that was given; what goes wrong is reported with the client's error, and a
/// room that is not there with its identifier.
pub proof fn law_older_page(
    room_id: RoomId,
    fetch_id: Option<String>,
    limit: u32,
    room: Room,
    error: ClientError,
)
    ensures
        LoadOlder::starts(room_id, fetch_id, limit) matches Step::Perform(op, asked) && {
            &&& asked == Action::GetRoom(room_id)
            &&& op.next(Event::Room(Some(room))) matches Step::Perform(fetch, ask) && {
                &&& ask matches Action::Messages(from, page) && from == room.room_id
                    && page.direction is Backward && page.from == fetch_id && page.limit == limit
                &&& fetch.next(Event::Messages(Err(error))) == Step::<
                    LoadOlder,
                    IambResult<(Option<String>, Seq<String>)>,
                >::Done(Err(UIError::Application(IambError::Client(error))))
            }
            &&& op.next(Event::Room(None)) == Step::<
                LoadOlder,
                IambResult<(Option<String>, Seq<String>)>,
            >::Done(Err(UIError::Application(IambError::UnknownRoom(room_id))))
        },
{
}

/// A page holds the place and the messages that it was made of, and a failed one its error.
pub proof fn law_fetched_page(end: Option<String>, messages: Vec<String>, error: UIError)
    ensures
        fetched(Ok((end, messages))) == Ok::<(Option<String>, Seq<String>), UIError>(
            (end, messages@),
        ),
        fetched(Err(error)) == Err::<(Option<String>, Seq<String>), UIError>(error),
{
}

} // verus!

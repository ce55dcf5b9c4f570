//! What the worker asks of the chat client, and what the client answers.
//!
//! An operation of the worker is a machine: it asks for one thing at a time, and is
//! handed the answer before it asks for the next.
use vstd::prelude::*;

use crate::base::{
    ClientError, DisplayName, EventId, Room, RoomId, RoomMember, Session, SpaceChild, TextMessage,
    UIError, UserId,
};

verus! {

/// Who can find a room.
#[derive(Clone, Copy, Debug, PartialEq, Eq, Structural)]
pub enum Visibility {
    /// Anyone.
    Public,
    /// Only who is invited.
    Private,
}

/// The rules that a new room starts with.
#[derive(Clone, Copy, Debug, PartialEq, Eq, Structural)]
pub enum RoomPreset {
    /// Those of a chat between a few people.
    PrivateChat,
    /// Those of a room that anyone can join.
    PublicChat,
}

/// A room to create.
#[derive(Debug, PartialEq, Eq)]
pub struct CreateRoom {
    /// Whether it is a direct chat.
    pub is_direct: bool,
    /// Who is invited.
    pub invite: UserId,
    /// Who can find it.
    pub visibility: Visibility,
    /// The rules that it starts with.
    pub preset: RoomPreset,
}

/// Which way a room's history is read.
#[derive(Clone, Copy, Debug, PartialEq, Eq, Structural)]
pub enum Direction {
    /// Towards older events.
    Backward,
    /// Towards newer events.
    Forward,
}

/// A page of a room's history to fetch.
#[derive(Debug, PartialEq, Eq)]
pub struct MessagesRequest {
    /// Which way to read.
    pub direction: Direction,
    /// Where to start; at the end of the history that `direction` leads away from if
    /// there is no such place.
    pub from: Option<String>,
    /// How many events to fetch at most.
    pub limit: u32,
}

/// The rooms of a space to list.
#[derive(Debug, PartialEq, Eq)]
pub struct SpaceHierarchyRequest {
    /// The space.
    pub space: RoomId,
    /// How many rooms to list at most.
    pub limit: u32,
    /// How many levels of spaces to descend at most.
    pub max_depth: u32,
}

/// A part of a room's state to set.
#[derive(Debug, PartialEq, Eq)]
pub enum StateContent {
    /// The room's name, or that it has none.
    Name(Option<String>),
    /// The room's topic.
    Topic(String),
}

/// How the two sides of a verification compare what they show.
#[derive(Clone, Copy, Debug, PartialEq, Eq, Structural)]
pub enum VerificationMethod {
    /// By short authentication strings.
    SasV1,
}

/// Something that the client is to do.
#[derive(Debug, PartialEq, Eq)]
pub enum Action {
    /// Look a room up.
    GetRoom(RoomId),
    /// Look a room up that the user has joined.
    GetJoinedRoom(RoomId),
    /// List the rooms that the user has joined.
    JoinedRooms,
    /// Ask for a room's display name.
    DisplayName(RoomId),
    /// Join a room.
    JoinRoomById(RoomId),
    /// Join the room that an identifier or an alias names.
    JoinRoomByIdOrAlias(String),
    /// Ask whether a user is a member of a room.
    GetMember(RoomId, UserId),
    /// Create a room.
    CreateRoom(CreateRoom),
    /// Fetch a page of a room's history.
    Messages(RoomId, MessagesRequest),
    /// List a room's active members.
    ActiveMembers(RoomId),
    /// Send a message to a room.
    Send(RoomId, TextMessage),
    /// Set a part of a room's state.
    SendStateEvent(RoomId, StateContent),
    /// List the rooms of a space.
    SpaceHierarchy(SpaceHierarchyRequest),
    /// Tell a room whether the user is typing.
    TypingNotice(RoomId, bool),
    /// Resume a session.
    RestoreLogin(Session),
    /// Log the user in with a password, under a name for the device.
    LoginUsername {
        /// The user.
        user_id: UserId,
        /// The user's password.
        password: String,
        /// What the device is called.
        device_name: String,
    },
    /// Write a session to the file that keeps it.
    SaveSession(Session),
    /// Start a task that syncs with the server over and over.
    StartSync,
    /// Sync with the server once.
    SyncOnce,
    /// Ask how far a verification has come.
    SasStatus(String),
    /// Accept a verification.
    SasAccept(String),
    /// Confirm a verification.
    SasConfirm(String),
    /// Cancel a verification.
    SasCancel(String),
    /// Report a mismatch in a verification.
    SasMismatch(String),
    /// Look up a user's identity.
    GetUserIdentity(UserId),
    /// Request a verification of a user.
    RequestVerification(UserId, VerificationMethod),
}

/// What the client did, or what it found.
#[derive(Debug, PartialEq, Eq)]
pub enum Event {
    /// The room that was looked up, if it was found.
    Room(Option<Room>),
    /// The rooms that the user has joined.
    Rooms(Vec<Room>),
    /// A room's display name.
    Name(Result<DisplayName, ClientError>),
    /// Whether it worked.
    Done(Result<(), ClientError>),
    /// The room that was joined or created.
    RoomId(Result<RoomId, ClientError>),
    /// Whether the user is a member.
    Member(Result<bool, ClientError>),
    /// A room's members.
    Members(Result<Vec<RoomMember>, ClientError>),
    /// A page of a room's history: where the next page starts, and the JSON texts of
    /// its events.
    Messages(Result<(Option<String>, Vec<String>), ClientError>),
    /// The event that a message became.
    Sent(Result<EventId, ClientError>),
    /// The rooms of a space.
    Children(Result<Vec<SpaceChild>, ClientError>),
    /// The session that was opened.
    Session(Result<Session, ClientError>),
    /// Whether the session was written.
    Saved(Result<(), UIError>),
    /// The number of the task that syncs.
    SyncStarted(u64),
    /// How far a verification has come.
    Sas {
        /// Whether it is done.
        is_done: bool,
        /// Whether it was cancelled.
        is_cancelled: bool,
    },
    /// Whether the user's identity is known.
    Identity(Result<bool, ClientError>),
}

/// Whether an event is an answer to an action.
pub open spec fn answers(event: Event, action: Action) -> bool {
    match action {
        Action::GetRoom(_) => event is Room,
        Action::GetJoinedRoom(_) => event is Room,
        Action::JoinedRooms => event is Rooms,
        Action::DisplayName(_) => event is Name,
        Action::JoinRoomById(_) => event is Done,
        Action::JoinRoomByIdOrAlias(_) => event is RoomId,
        Action::GetMember(_, _) => event is Member,
        Action::CreateRoom(_) => event is RoomId,
        Action::Messages(_, _) => event is Messages,
        Action::ActiveMembers(_) => event is Members,
        Action::Send(_, _) => event is Sent,
        Action::SendStateEvent(_, _) => event is Done,
        Action::SpaceHierarchy(_) => event is Children,
        Action::TypingNotice(_, _) => event is Done,
        Action::RestoreLogin(_) => event is Done,
        Action::LoginUsername { .. } => event is Session,
        Action::SaveSession(_) => event is Saved,
        Action::StartSync => event is SyncStarted,
        Action::SyncOnce => event is Done,
        Action::SasStatus(_) => event is Sas,
        Action::SasAccept(_) => event is Done,
        Action::SasConfirm(_) => event is Done,
        Action::SasCancel(_) => event is Done,
        Action::SasMismatch(_) => event is Done,
        Action::GetUserIdentity(_) => event is Identity,
        Action::RequestVerification(_, _) => event is Done,
    }
}

impl Event {
    /// Whether the event is an answer to the action.
    pub fn answers(&self, action: &Action) -> (r: bool)
        ensures
            r == answers(*self, *action),
    {
        match (action, self) {
            (Action::GetRoom(_), Event::Room(_)) => true,
            (Action::GetJoinedRoom(_), Event::Room(_)) => true,
            (Action::JoinedRooms, Event::Rooms(_)) => true,
            (Action::DisplayName(_), Event::Name(_)) => true,
            (Action::JoinRoomById(_), Event::Done(_)) => true,
            (Action::JoinRoomByIdOrAlias(_), Event::RoomId(_)) => true,
            (Action::GetMember(_, _), Event::Member(_)) => true,
            (Action::CreateRoom(_), Event::RoomId(_)) => true,
            (Action::Messages(_, _), Event::Messages(_)) => true,
            (Action::ActiveMembers(_), Event::Members(_)) => true,
            (Action::Send(_, _), Event::Sent(_)) => true,
            (Action::SendStateEvent(_, _), Event::Done(_)) => true,
            (Action::SpaceHierarchy(_), Event::Children(_)) => true,
            (Action::TypingNotice(_, _), Event::Done(_)) => true,
            (Action::RestoreLogin(_), Event::Done(_)) => true,
            (Action::LoginUsername { .. }, Event::Session(_)) => true,
            (Action::SaveSession(_), Event::Saved(_)) => true,
            (Action::StartSync, Event::SyncStarted(_)) => true,
            (Action::SyncOnce, Event::Done(_)) => true,
            (Action::SasStatus(_), Event::Sas { .. }) => true,
            (Action::SasAccept(_), Event::Done(_)) => true,
            (Action::SasConfirm(_), Event::Done(_)) => true,
            (Action::SasCancel(_), Event::Done(_)) => true,
            (Action::SasMismatch(_), Event::Done(_)) => true,
            (Action::GetUserIdentity(_), Event::Identity(_)) => true,
            (Action::RequestVerification(_, _), Event::Done(_)) => true,
            _ => false,
        }
    }
}

/// How an operation goes on.
#[derive(Debug, PartialEq, Eq)]
pub enum Step<O, R> {
    /// The client is to do this, and its answer is to be handed to the operation.
    Perform(O, Action),
    /// The operation is over, with this result.
    Done(R),
}

/// Whether an event answers an action is told from what kind of thing the client found or did,
/// and never from what came of it: a success, an error or nothing found answers alike.
pub proof fn law_answers_by_kind(event: Event, action: Action)
    ensures
        event is Room ==> (answers(event, action) <==> {
            action is GetRoom || action is GetJoinedRoom
        }),
        event is Rooms ==> (answers(event, action) <==> action is JoinedRooms),
        event is Name ==> (answers(event, action) <==> action is DisplayName),
        event is Done ==> (answers(event, action) <==> {
            action is JoinRoomById || action is SendStateEvent || action is TypingNotice
                || action is RestoreLogin || action is SyncOnce || action is SasAccept
                || action is SasConfirm || action is SasCancel || action is SasMismatch
                || action is RequestVerification
        }),
        event is RoomId ==> (answers(event, action) <==> {
            action is JoinRoomByIdOrAlias || action is CreateRoom
        }),
        event is Member ==> (answers(event, action) <==> action is GetMember),
        event is Messages ==> (answers(event, action) <==> action is Messages),
        event is Members ==> (answers(event, action) <==> action is ActiveMembers),
        event is Sent ==> (answers(event, action) <==> action is Send),
        event is Children ==> (answers(event, action) <==> action is SpaceHierarchy),
        event is Session ==> (answers(event, action) <==> action is LoginUsername),
        event is Saved ==> (answers(event, action) <==> action is SaveSession),
        event is SyncStarted ==> (answers(event, action) <==> action is StartSync),
        event is Sas ==> (answers(event, action) <==> action is SasStatus),
        event is Identity ==> (answers(event, action) <==> action is GetUserIdentity),
{
}

} // verus!

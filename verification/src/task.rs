//! Requests to the worker.
use std::sync::mpsc::SyncSender;

use vstd::prelude::*;

use crate::base::{
    DisplayName, EchoPair, EditInfo, IambResult, LoginStyle, MessageFetchResult, Room, RoomId,
    RoomMember, SetRoomField, UserId, VerifyAction,
};
use crate::channel::{
    can_send, clone_sender, oneshot, paired, send_item, twin, ClientReply, ClientResponse,
    Disconnected,
};

verus! {

/// A request to the worker, with the channel that its answer goes to. `S` is the
/// program's store.
#[verifier::reject_recursive_types(S)]
pub enum WorkerTask<S> {
    /// List the direct chats.
    DirectMessages(ClientReply<Vec<(Room, DisplayName)>>),
    /// Start to work, with the program's store.
    Init(S, ClientReply<()>),
    /// Fetch a page of a room's history: the room, where the page starts, and how many
    /// events it has at most.
    LoadOlder(RoomId, Option<String>, u32, ClientReply<MessageFetchResult>),
    /// Log in.
    Login(LoginStyle, ClientReply<IambResult<EditInfo>>),
    /// Find a room and its display name.
    GetRoom(RoomId, ClientReply<IambResult<(Room, DisplayName)>>),
    /// Join a room, or open the direct chat with a user.
    JoinRoom(String, ClientReply<IambResult<RoomId>>),
    /// List the joined rooms that are neither direct chats nor spaces.
    JoinedRooms(ClientReply<Vec<(Room, DisplayName)>>),
    /// List a room's active members.
    Members(RoomId, ClientReply<IambResult<Vec<RoomMember>>>),
    /// List the rooms of a space.
    SpaceMembers(RoomId, ClientReply<IambResult<Vec<RoomId>>>),
    /// List the joined spaces.
    Spaces(ClientReply<Vec<(Room, DisplayName)>>),
    /// Send a message to a room.
    SendMessage(RoomId, String, ClientReply<IambResult<EchoPair>>),
    /// Set a field of a room.
    SetRoom(RoomId, SetRoomField, ClientReply<IambResult<()>>),
    /// Tell a room that the user is typing.
    TypingNotice(RoomId),
    /// Move a verification on, which goes by this name.
    Verify(VerifyAction, String, ClientReply<IambResult<EditInfo>>),
    /// Request a verification of a user.
    VerifyRequest(UserId, ClientReply<IambResult<EditInfo>>),
}

/// Why a request has no answer.
#[verifier::reject_recursive_types(S)]
pub enum RequestError<S> {
    /// The worker is gone, and was not handed the request.
    NotSent(WorkerTask<S>),
    /// The worker took the request and went away without an answer.
    NoReply,
}

/// Sends requests to the worker and waits for its answers.
///
/// Which answer comes back, and whether one does, depends on the worker, which has a thread of
/// its own. The contracts say what is put into the worker's queue, and tie the result to what
/// became of it there and to what came of waiting for the answer.
#[verifier::reject_recursive_types(S)]
pub struct Requester<S> {
    /// The queue of the worker.
    pub tx: SyncSender<WorkerTask<S>>,
}

impl<S> Clone for Requester<S> {
    /// Another requester of the same worker.
    fn clone(&self) -> (r: Requester<S>)
        ensures
            twin(self.tx, r.tx),
    {
        Requester { tx: clone_sender(&self.tx) }
    }
}

/// What a request that was put into the worker's queue, or was not, comes to.
pub fn queued<S>(submitted: Result<(), WorkerTask<S>>) -> (r: Result<(), RequestError<S>>)
    ensures
        match submitted {
            Ok(_) => r is Ok,
            Err(unsent) => r == Err::<(), RequestError<S>>(RequestError::NotSent(unsent)),
        },
{
    match submitted {
        Ok(()) => Ok(()),
        Err(unsent) => Err(RequestError::NotSent(unsent)),
    }
}

/// What a request that the worker took comes to.
pub fn answered<S, T>(received: Result<T, Disconnected>) -> (r: Result<T, RequestError<S>>)
    ensures
        match received {
            Ok(answer) => r == Ok::<T, RequestError<S>>(answer),
            Err(_) => r == Err::<T, RequestError<S>>(RequestError::NoReply),
        },
{
    match received {
        Ok(answer) => Ok(answer),
        Err(_) => Err(RequestError::NoReply),
    }
}

/// Putting a request into the worker's queue can come to `r`: the queue takes it, or it is
/// given back.
pub open spec fn can_submit<S>(
    tx: SyncSender<WorkerTask<S>>,
    task: WorkerTask<S>,
    r: Result<(), RequestError<S>>,
) -> bool {
    match r {
        Ok(_) => can_send(tx, task, true),
        Err(RequestError::NotSent(unsent)) => unsent == task && can_send(tx, task, false),
        Err(RequestError::NoReply) => false,
    }
}

/// Putting a request into the worker's queue, and then waiting for the answer, can come to `r`.
pub open spec fn can_ask<S, T>(
    tx: SyncSender<WorkerTask<S>>,
    task: WorkerTask<S>,
    response: ClientResponse<T>,
    r: Result<T, RequestError<S>>,
) -> bool {
    match r {
        Ok(answer) => can_send(tx, task, true) && response.can_come_to(Some(answer)),
        Err(RequestError::NotSent(unsent)) => unsent == task && can_send(tx, task, false),
        Err(RequestError::NoReply) => can_send(tx, task, true) && response.can_come_to(None),
    }
}

impl<S> Requester<S> {
    /// Puts a request into the worker's queue, and gives it back if the worker is gone.
    fn submit(&self, task: WorkerTask<S>) -> (r: Result<(), RequestError<S>>)
        ensures
            can_submit(self.tx, task, r),
    {
        queued(send_item(&self.tx, task))
    }

    /// Puts a request into the worker's queue and waits for the answer.
    fn ask<T>(&self, task: WorkerTask<S>, response: ClientResponse<T>) -> (r: Result<
        T,
        RequestError<S>,
    >)
        ensures
            can_ask(self.tx, task, response, r),
    {
        match self.submit(task) {
            Ok(()) => answered(response.recv()),
            Err(error) => Err(error),
        }
    }

    /// Hands the program's store to the worker, which then starts to work.
    pub fn init(&self, store: S) -> (r: Result<(), RequestError<S>>)
        ensures
            exists|reply, response| #[trigger] paired(reply, response) && can_ask(
                self.tx,
                WorkerTask::Init(store, reply),
                response,
                r,
            ),
    {
        let (reply, response) = oneshot();
        self.ask(WorkerTask::Init(store, reply), response)
    }

    /// Fetches a page of a room's history.
    pub fn load_older(&self, room_id: RoomId, fetch_id: Option<String>, limit: u32) -> (r: Result<
        MessageFetchResult,
        RequestError<S>,
    >)
        ensures
            exists|reply, response| #[trigger] paired(reply, response) && can_ask(
                self.tx,
                WorkerTask::LoadOlder(room_id, fetch_id, limit, reply),
                response,
                r,
            ),
    {
        let (reply, response) = oneshot();
        self.ask(WorkerTask::LoadOlder(room_id, fetch_id, limit, reply), response)
    }

    /// Logs in.
    pub fn login(&self, style: LoginStyle) -> (r: Result<IambResult<EditInfo>, RequestError<S>>)
        ensures
            exists|reply, response| #[trigger] paired(reply, response) && can_ask(
                self.tx,
                WorkerTask::Login(style, reply),
                response,
                r,
            ),
    {
        let (reply, response) = oneshot();
        self.ask(WorkerTask::Login(style, reply), response)
    }

    /// Sends a message to a room.
    pub fn send_message(&self, room_id: RoomId, msg: String) -> (r: Result<
        IambResult<EchoPair>,
        RequestError<S>,
    >)
        ensures
            exists|reply, response| #[trigger] paired(reply, response) && can_ask(
                self.tx,
                WorkerTask::SendMessage(room_id, msg, reply),
                response,
                r,
            ),
    {
        let (reply, response) = oneshot();
        self.ask(WorkerTask::SendMessage(room_id, msg, reply), response)
    }

    /// Lists the direct chats.
    pub fn direct_messages(&self) -> (r: Result<Vec<(Room, DisplayName)>, RequestError<S>>)
        ensures
            exists|reply, response| #[trigger] paired(reply, response) && can_ask(
                self.tx,
                WorkerTask::DirectMessages(reply),
                response,
                r,
            ),
    {
        let (reply, response) = oneshot();
        self.ask(WorkerTask::DirectMessages(reply), response)
    }

    /// Finds a room and its display name.
    pub fn get_room(&self, room_id: RoomId) -> (r: Result<
        IambResult<(Room, DisplayName)>,
        RequestError<S>,
    >)
        ensures
            exists|reply, response| #[trigger] paired(reply, response) && can_ask(
                self.tx,
                WorkerTask::GetRoom(room_id, reply),
                response,
                r,
            ),
    {
        let (reply, response) = oneshot();
        self.ask(WorkerTask::GetRoom(room_id, reply), response)
    }

    /// Joins a room, or opens the direct chat with a user.
    pub fn join_room(&self, name: String) -> (r: Result<IambResult<RoomId>, RequestError<S>>)
        ensures
            exists|reply, response| #[trigger] paired(reply, response) && can_ask(
                self.tx,
                WorkerTask::JoinRoom(name, reply),
                response,
                r,
            ),
    {
        let (reply, response) = oneshot();
        self.ask(WorkerTask::JoinRoom(name, reply), response)
    }

    /// Lists the joined rooms that are neither direct chats nor spaces.
    pub fn joined_rooms(&self) -> (r: Result<Vec<(Room, DisplayName)>, RequestError<S>>)
        ensures
            exists|reply, response| #[trigger] paired(reply, response) && can_ask(
                self.tx,
                WorkerTask::JoinedRooms(reply),
                response,
                r,
            ),
    {
        let (reply, response) = oneshot();
        self.ask(WorkerTask::JoinedRooms(reply), response)
    }

    /// Lists a room's active members.
    pub fn members(&self, room_id: RoomId) -> (r: Result<
        IambResult<Vec<RoomMember>>,
        RequestError<S>,
    >)
        ensures
            exists|reply, response| #[trigger] paired(reply, response) && can_ask(
                self.tx,
                WorkerTask::Members(room_id, reply),
                response,
                r,
            ),
    {
        let (reply, response) = oneshot();
        self.ask(WorkerTask::Members(room_id, reply), response)
    }

    /// Lists the rooms of a space.
    pub fn space_members(&self, space: RoomId) -> (r: Result<
        IambResult<Vec<RoomId>>,
        RequestError<S>,
    >)
        ensures
            exists|reply, response| #[trigger] paired(reply, response) && can_ask(
                self.tx,
                WorkerTask::SpaceMembers(space, reply),
                response,
                r,
            ),
    {
        let (reply, response) = oneshot();
        self.ask(WorkerTask::SpaceMembers(space, reply), response)
    }

    /// Sets a field of a room.
    pub fn set_room(&self, room_id: RoomId, ev: SetRoomField) -> (r: Result<
        IambResult<()>,
        RequestError<S>,
    >)
        ensures
            exists|reply, response| #[trigger] paired(reply, response) && can_ask(
                self.tx,
                WorkerTask::SetRoom(room_id, ev, reply),
                response,
                r,
            ),
    {
        let (reply, response) = oneshot();
        self.ask(WorkerTask::SetRoom(room_id, ev, reply), response)
    }

    /// Lists the joined spaces.
    pub fn spaces(&self) -> (r: Result<Vec<(Room, DisplayName)>, RequestError<S>>)
        ensures
            exists|reply, response| #[trigger] paired(reply, response) && can_ask(
                self.tx,
                WorkerTask::Spaces(reply),
                response,
                r,
            ),
    {
        let (reply, response) = oneshot();
        self.ask(WorkerTask::Spaces(reply), response)
    }

    /// Moves a verification on.
    pub fn verify(&self, act: VerifyAction, sas: String) -> (r: Result<
        IambResult<EditInfo>,
        RequestError<S>,
    >)
        ensures
            exists|reply, response| #[trigger] paired(reply, response) && can_ask(
                self.tx,
                WorkerTask::Verify(act, sas, reply),
                response,
                r,
            ),
    {
        let (reply, response) = oneshot();
        self.ask(WorkerTask::Verify(act, sas, reply), response)
    }

    /// Requests a verification of a user.
    pub fn verify_request(&self, user_id: UserId) -> (r: Result<
        IambResult<EditInfo>,
        RequestError<S>,
    >)
        ensures
            exists|reply, response| #[trigger] paired(reply, response) && can_ask(
                self.tx,
                WorkerTask::VerifyRequest(user_id, reply),
                response,
                r,
            ),
    {
        let (reply, response) = oneshot();
        self.ask(WorkerTask::VerifyRequest(user_id, reply), response)
    }

    /// Tells a room that the user is typing, and waits for nothing.
    pub fn typing_notice(&self, room_id: RoomId) -> (r: Result<(), RequestError<S>>)
        ensures
            can_submit(self.tx, WorkerTask::TypingNotice(room_id), r),
    {
        self.submit(WorkerTask::TypingNotice(room_id))
    }
}

/// A request has an answer only if the queue can take the request and waiting can come to that
/// answer; it has none because nobody answered only if waiting can come to none; and it is
/// given back only as it was, and only if the queue can refuse it.
pub proof fn law_request_outcomes<S, T>(
    tx: SyncSender<WorkerTask<S>>,
    task: WorkerTask<S>,
    response: ClientResponse<T>,
    answer: T,
    unsent: WorkerTask<S>,
)
    ensures
        can_ask(tx, task, response, Ok(answer)) ==> can_send(tx, task, true)
            && response.can_come_to(Some(answer)),
        can_ask(tx, task, response, Err(RequestError::NoReply)) ==> can_send(tx, task, true)
            && response.can_come_to(None),
        can_ask(tx, task, response, Err(RequestError::NotSent(unsent))) ==> unsent == task
            && can_send(tx, task, false),
        can_submit(tx, task, Ok(())) ==> can_send(tx, task, true),
        can_submit(tx, task, Err(RequestError::NotSent(unsent))) ==> unsent == task && can_send(
            tx,
            task,
            false,
        ),
        !can_submit(tx, task, Err(RequestError::NoReply)),
{
}

} // verus!

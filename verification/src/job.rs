//! Requests that the worker is busy with.
use vstd::prelude::*;

use crate::base::{
    DisplayName, EchoPair, EditInfo, IambResult, MessageFetchResult, Room, RoomId, RoomMember,
};
use crate::channel::ClientReply;
use crate::client::{answers, Action, Event, Step};
use crate::ops::direct::{
    join_step, lemma_direct_wf, DirectState, JoinRoom, JoinState, JoinStep,
};
use crate::ops::listing::{
    lemma_listing_wf, listing_step, ListingState, ListingStep, RoomListing,
};
use crate::ops::login::LoginAndSync;
use crate::ops::message::SendMessage;
use crate::ops::room::{
    fetched, listed_ids, GetRoom, LoadOlder, Members, SetRoom, SpaceMembers, TypingNotice,
};
use crate::ops::verify::{Verify, VerifyRequest};

verus! {

/// A request that is being carried out: how far it has come, and where its answer goes.
pub enum Job {
    /// Listing joined rooms.
    Listing(RoomListing, ClientReply<Vec<(Room, DisplayName)>>),
    /// Finding a room and its display name.
    GetRoom(GetRoom, ClientReply<IambResult<(Room, DisplayName)>>),
    /// Joining a room, or opening a direct chat.
    JoinRoom(JoinRoom, ClientReply<IambResult<RoomId>>),
    /// Fetching a page of a room's history.
    LoadOlder(LoadOlder, ClientReply<MessageFetchResult>),
    /// Logging in.
    Login(LoginAndSync, ClientReply<IambResult<EditInfo>>),
    /// Listing a room's active members.
    Members(Members, ClientReply<IambResult<Vec<RoomMember>>>),
    /// Setting a field of a room.
    SetRoom(SetRoom, ClientReply<IambResult<()>>),
    /// Listing the rooms of a space.
    SpaceMembers(SpaceMembers, ClientReply<IambResult<Vec<RoomId>>>),
    /// Sending a message.
    SendMessage(SendMessage, ClientReply<IambResult<EchoPair>>),
    /// Telling a room that the user is typing.
    TypingNotice(TypingNotice),
    /// Moving a verification on.
    Verify(Verify, ClientReply<IambResult<EditInfo>>),
    /// Requesting a verification.
    VerifyRequest(VerifyRequest, ClientReply<IambResult<EditInfo>>),
}

/// What a request has come to, and where the answer goes.
pub enum Outcome {
    /// Rooms with their names.
    Rooms(ClientReply<Vec<(Room, DisplayName)>>, Vec<(Room, DisplayName)>),
    /// A room with its name.
    Room(ClientReply<IambResult<(Room, DisplayName)>>, IambResult<(Room, DisplayName)>),
    /// The room that was joined.
    RoomId(ClientReply<IambResult<RoomId>>, IambResult<RoomId>),
    /// A page of a room's history.
    Page(ClientReply<MessageFetchResult>, MessageFetchResult),
    /// Something to tell the user.
    Info(ClientReply<IambResult<EditInfo>>, IambResult<EditInfo>),
    /// A room's members.
    Members(ClientReply<IambResult<Vec<RoomMember>>>, IambResult<Vec<RoomMember>>),
    /// Whether a field was set.
    FieldSet(ClientReply<IambResult<()>>, IambResult<()>),
    /// The rooms of a space.
    RoomIds(ClientReply<IambResult<Vec<RoomId>>>, IambResult<Vec<RoomId>>),
    /// The message that was sent.
    Sent(ClientReply<IambResult<EchoPair>>, IambResult<EchoPair>),
    /// The request has no answer.
    Nothing,
}

/// The answer to a request.
#[derive(Debug, PartialEq, Eq)]
pub enum Answer {
    /// Rooms with their names.
    Rooms(Vec<(Room, DisplayName)>),
    /// A room with its name.
    Room(IambResult<(Room, DisplayName)>),
    /// The room that was joined.
    RoomId(IambResult<RoomId>),
    /// A page of a room's history.
    Page(MessageFetchResult),
    /// Something to tell the user.
    Info(IambResult<EditInfo>),
    /// A room's members.
    Members(IambResult<Vec<RoomMember>>),
    /// Whether a field was set.
    FieldSet(IambResult<()>),
    /// The rooms of a space.
    RoomIds(IambResult<Vec<RoomId>>),
    /// The message that was sent.
    Sent(IambResult<EchoPair>),
}

/// A step of a request.
pub type JobStep = Step<Job, Outcome>;

impl Outcome {
    /// The answer, unless the request has none.
    pub open spec fn answer(self) -> Option<Answer> {
        match self {
            Outcome::Rooms(_, answer) => Some(Answer::Rooms(answer)),
            Outcome::Room(_, answer) => Some(Answer::Room(answer)),
            Outcome::RoomId(_, answer) => Some(Answer::RoomId(answer)),
            Outcome::Page(_, answer) => Some(Answer::Page(answer)),
            Outcome::Info(_, answer) => Some(Answer::Info(answer)),
            Outcome::Members(_, answer) => Some(Answer::Members(answer)),
            Outcome::FieldSet(_, answer) => Some(Answer::FieldSet(answer)),
            Outcome::RoomIds(_, answer) => Some(Answer::RoomIds(answer)),
            Outcome::Sent(_, answer) => Some(Answer::Sent(answer)),
            Outcome::Nothing => None,
        }
    }

    /// Sending the answer to whoever asked can work, or else can give it back. A request
    /// without an answer has nothing to send.
    pub open spec fn can_come_to(self, delivered: bool) -> bool {
        match self {
            Outcome::Rooms(reply, answer) => reply.can_come_to(answer, delivered),
            Outcome::Room(reply, answer) => reply.can_come_to(answer, delivered),
            Outcome::RoomId(reply, answer) => reply.can_come_to(answer, delivered),
            Outcome::Page(reply, answer) => reply.can_come_to(answer, delivered),
            Outcome::Info(reply, answer) => reply.can_come_to(answer, delivered),
            Outcome::Members(reply, answer) => reply.can_come_to(answer, delivered),
            Outcome::FieldSet(reply, answer) => reply.can_come_to(answer, delivered),
            Outcome::RoomIds(reply, answer) => reply.can_come_to(answer, delivered),
            Outcome::Sent(reply, answer) => reply.can_come_to(answer, delivered),
            Outcome::Nothing => delivered,
        }
    }

    /// Sends the answer to whoever asked, and gives it back if nobody waits for it any
    /// more.
    pub fn deliver(self) -> (r: Result<(), Answer>)
        ensures
            self.can_come_to(r is Ok),
            r matches Err(unsent) ==> self.answer() == Some(unsent),
    {
        match self {
            Outcome::Rooms(reply, answer) => match reply.send(answer) {
                Ok(()) => Ok(()),
                Err(unsent) => Err(Answer::Rooms(unsent)),
            },
            Outcome::Room(reply, answer) => match reply.send(answer) {
                Ok(()) => Ok(()),
                Err(unsent) => Err(Answer::Room(unsent)),
            },
            Outcome::RoomId(reply, answer) => match reply.send(answer) {
                Ok(()) => Ok(()),
                Err(unsent) => Err(Answer::RoomId(unsent)),
            },
            Outcome::Page(reply, answer) => match reply.send(answer) {
                Ok(()) => Ok(()),
                Err(unsent) => Err(Answer::Page(unsent)),
            },
            Outcome::Info(reply, answer) => match reply.send(answer) {
                Ok(()) => Ok(()),
                Err(unsent) => Err(Answer::Info(unsent)),
            },
            Outcome::Members(reply, answer) => match reply.send(answer) {
                Ok(()) => Ok(()),
                Err(unsent) => Err(Answer::Members(unsent)),
            },
            Outcome::FieldSet(reply, answer) => match reply.send(answer) {
                Ok(()) => Ok(()),
                Err(unsent) => Err(Answer::FieldSet(unsent)),
            },
            Outcome::RoomIds(reply, answer) => match reply.send(answer) {
                Ok(()) => Ok(()),
                Err(unsent) => Err(Answer::RoomIds(unsent)),
            },
            Outcome::Sent(reply, answer) => match reply.send(answer) {
                Ok(()) => Ok(()),
                Err(unsent) => Err(Answer::Sent(unsent)),
            },
            Outcome::Nothing => Ok(()),
        }
    }
}

/// The step is one of a listing whose answer goes to `reply`.
pub open spec fn lists(
    r: JobStep,
    step: ListingStep,
    reply: ClientReply<Vec<(Room, DisplayName)>>,
) -> bool {
    match (r, step) {
        (Step::Perform(Job::Listing(op, to), action), Step::Perform(state, asked)) => {
            to == reply && op@ == state && action == asked
        },
        (Step::Done(Outcome::Rooms(to, answer)), Step::Done(rooms)) => {
            to == reply && answer@ == rooms
        },
        _ => false,
    }
}

/// The step is one of joining a room, and the answer goes to `reply`.
pub open spec fn joins(r: JobStep, step: JoinStep, reply: ClientReply<IambResult<RoomId>>) -> bool {
    match (r, step) {
        (Step::Perform(Job::JoinRoom(op, to), action), Step::Perform(state, asked)) => {
            to == reply && op@ == state && action == asked
        },
        (Step::Done(Outcome::RoomId(to, answer)), Step::Done(room_id)) => {
            to == reply && answer == room_id
        },
        _ => false,
    }
}

/// The step is one of fetching a page, and the answer goes to `reply`.
pub open spec fn loads(
    r: JobStep,
    step: Step<LoadOlder, IambResult<(Option<String>, Seq<String>)>>,
    reply: ClientReply<MessageFetchResult>,
) -> bool {
    match (r, step) {
        (Step::Perform(Job::LoadOlder(op, to), action), Step::Perform(state, asked)) => {
            to == reply && op == state && action == asked
        },
        (Step::Done(Outcome::Page(to, answer)), Step::Done(page)) => {
            to == reply && fetched(answer) == page
        },
        _ => false,
    }
}

/// A step of telling a room that the user is typing, which nobody waits for.
pub open spec fn typing_job(step: Step<TypingNotice, ()>) -> JobStep {
    match step {
        Step::Perform(op, action) => Step::Perform(Job::TypingNotice(op), action),
        Step::Done(_) => Step::Done(Outcome::Nothing),
    }
}

/// A step of finding a room and its display name, whose answer goes to `reply`.
pub open spec fn get_room_job(
    step: Step<GetRoom, IambResult<(Room, DisplayName)>>,
    reply: ClientReply<IambResult<(Room, DisplayName)>>,
) -> JobStep {
    match step {
        Step::Perform(op, action) => Step::Perform(Job::GetRoom(op, reply), action),
        Step::Done(answer) => Step::Done(Outcome::Room(reply, answer)),
    }
}

/// A step of logging in, whose answer goes to `reply`.
pub open spec fn login_job(
    step: Step<LoginAndSync, IambResult<EditInfo>>,
    reply: ClientReply<IambResult<EditInfo>>,
) -> JobStep {
    match step {
        Step::Perform(op, action) => Step::Perform(Job::Login(op, reply), action),
        Step::Done(answer) => Step::Done(Outcome::Info(reply, answer)),
    }
}

/// A step of listing a room's active members, whose answer goes to `reply`.
pub open spec fn members_job(
    step: Step<Members, IambResult<Vec<RoomMember>>>,
    reply: ClientReply<IambResult<Vec<RoomMember>>>,
) -> JobStep {
    match step {
        Step::Perform(op, action) => Step::Perform(Job::Members(op, reply), action),
        Step::Done(answer) => Step::Done(Outcome::Members(reply, answer)),
    }
}

/// A step of setting a field of a room, whose answer goes to `reply`.
pub open spec fn set_room_job(
    step: Step<SetRoom, IambResult<()>>,
    reply: ClientReply<IambResult<()>>,
) -> JobStep {
    match step {
        Step::Perform(op, action) => Step::Perform(Job::SetRoom(op, reply), action),
        Step::Done(answer) => Step::Done(Outcome::FieldSet(reply, answer)),
    }
}

/// A step of sending a message, whose answer goes to `reply`.
pub open spec fn send_message_job(
    step: Step<SendMessage, IambResult<EchoPair>>,
    reply: ClientReply<IambResult<EchoPair>>,
) -> JobStep {
    match step {
        Step::Perform(op, action) => Step::Perform(Job::SendMessage(op, reply), action),
        Step::Done(answer) => Step::Done(Outcome::Sent(reply, answer)),
    }
}

/// A step of moving a verification on, whose answer goes to `reply`.
pub open spec fn verify_job(
    step: Step<Verify, IambResult<EditInfo>>,
    reply: ClientReply<IambResult<EditInfo>>,
) -> JobStep {
    match step {
        Step::Perform(op, action) => Step::Perform(Job::Verify(op, reply), action),
        Step::Done(answer) => Step::Done(Outcome::Info(reply, answer)),
    }
}

/// A step of requesting a verification, whose answer goes to `reply`.
pub open spec fn verify_request_job(
    step: Step<VerifyRequest, IambResult<EditInfo>>,
    reply: ClientReply<IambResult<EditInfo>>,
) -> JobStep {
    match step {
        Step::Perform(op, action) => Step::Perform(Job::VerifyRequest(op, reply), action),
        Step::Done(answer) => Step::Done(Outcome::Info(reply, answer)),
    }
}

impl Job {
    /// The request is well-formed.
    pub open spec fn wf(self) -> bool {
        match self {
            Job::Listing(op, _) => op.wf(),
            Job::JoinRoom(op, _) => op.wf(),
            _ => true,
        }
    }

    /// Whether the event answers what was last asked of the client.
    pub open spec fn awaits(self, event: Event) -> bool {
        match self {
            Job::Listing(op, _) => op@.awaits(event),
            Job::GetRoom(op, _) => op.awaits(event),
            Job::JoinRoom(op, _) => op@.awaits(event),
            Job::LoadOlder(op, _) => op.awaits(event),
            Job::Login(op, _) => op.awaits(event),
            Job::Members(op, _) => op.awaits(event),
            Job::SetRoom(op, _) => op.awaits(event),
            Job::SpaceMembers(op, _) => op.awaits(event),
            Job::SendMessage(op, _) => op.awaits(event),
            Job::TypingNotice(op) => op.awaits(event),
            Job::Verify(op, _) => op.awaits(event),
            Job::VerifyRequest(op, _) => op.awaits(event),
        }
    }

    /// The request goes on after an answer to this action, and after nothing else.
    pub open spec fn asks(self, action: Action) -> bool {
        forall|event: Event| #[trigger] answers(event, action) <==> self.awaits(event)
    }

    /// Whether the request goes on like this after an event.
    pub open spec fn goes_on(self, event: Event, r: JobStep) -> bool {
        match self {
            Job::Listing(op, reply) => lists(r, op@.next(event), reply),
            Job::GetRoom(op, reply) => r == get_room_job(op.next(event), reply),
            Job::JoinRoom(op, reply) => joins(r, op@.next(event), reply),
            Job::LoadOlder(op, reply) => loads(r, op.next(event), reply),
            Job::Login(op, reply) => r == login_job(op.next(event), reply),
            Job::Members(op, reply) => r == members_job(op.next(event), reply),
            Job::SetRoom(op, reply) => r == set_room_job(op.next(event), reply),
            Job::SpaceMembers(op, reply) => match r {
                Step::Done(Outcome::RoomIds(to, answer)) => {
                    to == reply && listed_ids(answer) == op.result(event)
                },
                _ => false,
            },
            Job::SendMessage(op, reply) => r == send_message_job(op.next(event), reply),
            Job::TypingNotice(op) => r == typing_job(op.next(event)),
            Job::Verify(op, reply) => r == verify_job(op.next(event), reply),
            Job::VerifyRequest(op, reply) => r == verify_request_job(op.next(event), reply),
        }
    }

    /// Goes on after an event.
    pub fn step(self, event: Event) -> (r: JobStep)
        requires
            self.wf(),
            self.awaits(event),
        ensures
            self.goes_on(event, r),
            sound(r),
    {
        match self {
            Job::Listing(op, reply) => Job::of_listing(op.step(event), reply),
            Job::GetRoom(op, reply) => Job::of_get_room(op.step(event), reply),
            Job::JoinRoom(op, reply) => Job::of_join_room(op.step(event), reply),
            Job::LoadOlder(op, reply) => Job::of_load_older(op.step(event), reply),
            Job::Login(op, reply) => Job::of_login(op.step(event), reply),
            Job::Members(op, reply) => Job::of_members(op.step(event), reply),
            Job::SetRoom(op, reply) => Job::of_set_room(op.step(event), reply),
            Job::SpaceMembers(op, reply) => Job::of_space_members(op.step(event), reply),
            Job::SendMessage(op, reply) => Job::of_send_message(op.step(event), reply),
            Job::TypingNotice(op) => Job::of_typing_notice(op.step(event)),
            Job::Verify(op, reply) => Job::of_verify(op.step(event), reply),
            Job::VerifyRequest(op, reply) => Job::of_verify_request(op.step(event), reply),
        }
    }

    /// A step of listing rooms, as a step of a request.
    pub(crate) fn of_listing(
        step: Step<RoomListing, Vec<(Room, DisplayName)>>,
        reply: ClientReply<Vec<(Room, DisplayName)>>,
    ) -> (r: JobStep)
        ensures
            lists(r, listing_step(step), reply),
            r matches Step::Perform(job, action) ==> step == Step::<
                RoomListing,
                Vec<(Room, DisplayName)>,
            >::Perform(job->Listing_0, action),
    {
        match step {
            Step::Perform(op, action) => Step::Perform(Job::Listing(op, reply), action),
            Step::Done(rooms) => Step::Done(Outcome::Rooms(reply, rooms)),
        }
    }

    /// A step of joining a room, as a step of a request.
    pub(crate) fn of_join_room(
        step: Step<JoinRoom, IambResult<RoomId>>,
        reply: ClientReply<IambResult<RoomId>>,
    ) -> (r: JobStep)
        ensures
            joins(r, join_step(step), reply),
            r matches Step::Perform(job, action) ==> step == Step::<
                JoinRoom,
                IambResult<RoomId>,
            >::Perform(job->JoinRoom_0, action),
    {
        match step {
            Step::Perform(op, action) => Step::Perform(Job::JoinRoom(op, reply), action),
            Step::Done(room_id) => Step::Done(Outcome::RoomId(reply, room_id)),
        }
    }

    /// A step of telling a room that the user is typing, as a step of a request.
    pub(crate) fn of_typing_notice(step: Step<TypingNotice, ()>) -> (r: JobStep)
        ensures
            r == typing_job(step),
    {
        match step {
            Step::Perform(op, action) => Step::Perform(Job::TypingNotice(op), action),
            Step::Done(_) => Step::Done(Outcome::Nothing),
        }
    }

    /// A step of finding a room, as a step of a request.
    pub(crate) fn of_get_room(
        step: Step<GetRoom, IambResult<(Room, DisplayName)>>,
        reply: ClientReply<IambResult<(Room, DisplayName)>>,
    ) -> (r: JobStep)
        ensures
            r == get_room_job(step, reply),
    {
        match step {
            Step::Perform(op, action) => Step::Perform(Job::GetRoom(op, reply), action),
            Step::Done(answer) => Step::Done(Outcome::Room(reply, answer)),
        }
    }

    /// A step of logging in, as a step of a request.
    pub(crate) fn of_login(
        step: Step<LoginAndSync, IambResult<EditInfo>>,
        reply: ClientReply<IambResult<EditInfo>>,
    ) -> (r: JobStep)
        ensures
            r == login_job(step, reply),
    {
        match step {
            Step::Perform(op, action) => Step::Perform(Job::Login(op, reply), action),
            Step::Done(answer) => Step::Done(Outcome::Info(reply, answer)),
        }
    }

    /// A step of listing members, as a step of a request.
    pub(crate) fn of_members(
        step: Step<Members, IambResult<Vec<RoomMember>>>,
        reply: ClientReply<IambResult<Vec<RoomMember>>>,
    ) -> (r: JobStep)
        ensures
            r == members_job(step, reply),
    {
        match step {
            Step::Perform(op, action) => Step::Perform(Job::Members(op, reply), action),
            Step::Done(answer) => Step::Done(Outcome::Members(reply, answer)),
        }
    }

    /// A step of setting a field of a room, as a step of a request.
    pub(crate) fn of_set_room(
        step: Step<SetRoom, IambResult<()>>,
        reply: ClientReply<IambResult<()>>,
    ) -> (r: JobStep)
        ensures
            r == set_room_job(step, reply),
    {
        match step {
            Step::Perform(op, action) => Step::Perform(Job::SetRoom(op, reply), action),
            Step::Done(answer) => Step::Done(Outcome::FieldSet(reply, answer)),
        }
    }

    /// A step of sending a message, as a step of a request.
    pub(crate) fn of_send_message(
        step: Step<SendMessage, IambResult<EchoPair>>,
        reply: ClientReply<IambResult<EchoPair>>,
    ) -> (r: JobStep)
        ensures
            r == send_message_job(step, reply),
    {
        match step {
            Step::Perform(op, action) => Step::Perform(Job::SendMessage(op, reply), action),
            Step::Done(answer) => Step::Done(Outcome::Sent(reply, answer)),
        }
    }

    /// A step of moving a verification on, as a step of a request.
    pub(crate) fn of_verify(
        step: Step<Verify, IambResult<EditInfo>>,
        reply: ClientReply<IambResult<EditInfo>>,
    ) -> (r: JobStep)
        ensures
            r == verify_job(step, reply),
    {
        match step {
            Step::Perform(op, action) => Step::Perform(Job::Verify(op, reply), action),
            Step::Done(answer) => Step::Done(Outcome::Info(reply, answer)),
        }
    }

    /// A step of requesting a verification, as a step of a request.
    pub(crate) fn of_verify_request(
        step: Step<VerifyRequest, IambResult<EditInfo>>,
        reply: ClientReply<IambResult<EditInfo>>,
    ) -> (r: JobStep)
        ensures
            r == verify_request_job(step, reply),
    {
        match step {
            Step::Perform(op, action) => Step::Perform(Job::VerifyRequest(op, reply), action),
            Step::Done(answer) => Step::Done(Outcome::Info(reply, answer)),
        }
    }

    /// A step of fetching a page, as a step of a request.
    pub(crate) fn of_load_older(
        step: Step<LoadOlder, MessageFetchResult>,
        reply: ClientReply<MessageFetchResult>,
    ) -> (r: JobStep)
        ensures
            r == (match step {
                Step::Perform(op, action) => JobStep::Perform(Job::LoadOlder(op, reply), action),
                Step::Done(answer) => JobStep::Done(Outcome::Page(reply, answer)),
            }),
    {
        match step {
            Step::Perform(op, action) => Step::Perform(Job::LoadOlder(op, reply), action),
            Step::Done(answer) => Step::Done(Outcome::Page(reply, answer)),
        }
    }

    /// A step of listing the rooms of a space, as a step of a request.
    pub(crate) fn of_space_members(
        step: Step<SpaceMembers, IambResult<Vec<RoomId>>>,
        reply: ClientReply<IambResult<Vec<RoomId>>>,
    ) -> (r: JobStep)
        ensures
            r == (match step {
                Step::Perform(op, action) => JobStep::Perform(Job::SpaceMembers(op, reply), action),
                Step::Done(answer) => JobStep::Done(Outcome::RoomIds(reply, answer)),
            }),
    {
        match step {
            Step::Perform(op, action) => Step::Perform(Job::SpaceMembers(op, reply), action),
            Step::Done(answer) => Step::Done(Outcome::RoomIds(reply, answer)),
        }
    }

}

/// A request that goes on is well-formed, and waits for an answer to what the client is
/// asked.
pub open spec fn sound(r: JobStep) -> bool {
    r matches Step::Perform(job, action) ==> job.wf() && job.asks(action)
}

/// The answer of a request goes to whoever asked, and to nobody else.
pub open spec fn asker_kept(job: Job, r: JobStep) -> bool {
    match (job, r) {
        (Job::Listing(_, a), Step::Perform(Job::Listing(_, b), _)) => a == b,
        (Job::Listing(_, a), Step::Done(Outcome::Rooms(b, _))) => a == b,
        (Job::GetRoom(_, a), Step::Perform(Job::GetRoom(_, b), _)) => a == b,
        (Job::GetRoom(_, a), Step::Done(Outcome::Room(b, _))) => a == b,
        (Job::JoinRoom(_, a), Step::Perform(Job::JoinRoom(_, b), _)) => a == b,
        (Job::JoinRoom(_, a), Step::Done(Outcome::RoomId(b, _))) => a == b,
        (Job::LoadOlder(_, a), Step::Perform(Job::LoadOlder(_, b), _)) => a == b,
        (Job::LoadOlder(_, a), Step::Done(Outcome::Page(b, _))) => a == b,
        (Job::Login(_, a), Step::Perform(Job::Login(_, b), _)) => a == b,
        (Job::Login(_, a), Step::Done(Outcome::Info(b, _))) => a == b,
        (Job::Members(_, a), Step::Perform(Job::Members(_, b), _)) => a == b,
        (Job::Members(_, a), Step::Done(Outcome::Members(b, _))) => a == b,
        (Job::SetRoom(_, a), Step::Perform(Job::SetRoom(_, b), _)) => a == b,
        (Job::SetRoom(_, a), Step::Done(Outcome::FieldSet(b, _))) => a == b,
        (Job::SpaceMembers(_, a), Step::Done(Outcome::RoomIds(b, _))) => a == b,
        (Job::SendMessage(_, a), Step::Perform(Job::SendMessage(_, b), _)) => a == b,
        (Job::SendMessage(_, a), Step::Done(Outcome::Sent(b, _))) => a == b,
        (Job::TypingNotice(_), Step::Perform(Job::TypingNotice(_), _)) => true,
        (Job::TypingNotice(_), Step::Done(Outcome::Nothing)) => true,
        (Job::Verify(_, a), Step::Perform(Job::Verify(_, b), _)) => a == b,
        (Job::Verify(_, a), Step::Done(Outcome::Info(b, _))) => a == b,
        (Job::VerifyRequest(_, a), Step::Perform(Job::VerifyRequest(_, b), _)) => a == b,
        (Job::VerifyRequest(_, a), Step::Done(Outcome::Info(b, _))) => a == b,
        _ => false,
    }
}

/// Every request but a typing notice ends in an answer, which goes to whoever asked; a
/// typing notice ends in none.
pub proof fn law_answer_to_asker(job: Job, event: Event, r: JobStep)
    requires
        job.awaits(event),
        job.goes_on(event, r),
    ensures
        asker_kept(job, r),
{
}

/// How many stages a listing still has.
pub open spec fn listing_stages(state: ListingState) -> nat {
    match state {
        ListingState::Fetch(_) => 1,
        ListingState::Name { .. } => 0,
    }
}

/// How many stages a search for a direct chat still has.
pub open spec fn direct_stages(state: DirectState) -> nat {
    match state {
        DirectState::List(_, state) => 4 + listing_stages(state),
        DirectState::Probe(_, _) => 3,
        DirectState::Create(_) => 2,
        DirectState::Open(GetRoom::Lookup(_)) => 1,
        DirectState::Open(GetRoom::Name(_)) => 0,
    }
}

impl Job {
    /// How many stages the request still has.
    pub open spec fn stages(self) -> nat {
        match self {
            Job::Listing(op, _) => listing_stages(op@),
            Job::GetRoom(GetRoom::Lookup(_), _) => 1,
            Job::JoinRoom(op, _) => match op@ {
                JoinState::Join => 0,
                JoinState::Direct(state) => direct_stages(state),
            },
            Job::LoadOlder(LoadOlder::Lookup { .. }, _) => 1,
            Job::Login(op, _) => match op {
                LoginAndSync::Login => 3,
                LoginAndSync::Save => 2,
                LoginAndSync::Restore => 2,
                LoginAndSync::Spawn => 1,
                LoginAndSync::SyncOnce => 0,
            },
            Job::Members(Members::Lookup(_), _) => 1,
            Job::SetRoom(SetRoom::Lookup(_, _), _) => 1,
            Job::SendMessage(op, _) => match op {
                SendMessage::Lookup(_) => 3,
                SendMessage::Join(_) => 2,
                SendMessage::LookupAgain(_) => 1,
                SendMessage::Send(_) => 0,
            },
            Job::TypingNotice(TypingNotice::Lookup) => 1,
            Job::Verify(Verify::Status(_, _), _) => 1,
            Job::VerifyRequest(VerifyRequest::Identity(_), _) => 1,
            _ => 0,
        }
    }

    /// How many rooms the stage still has to ask.
    pub open spec fn rooms_left(self) -> nat {
        match self {
            Job::Listing(op, _) => match op@ {
                ListingState::Name { todo, .. } => todo.len(),
                _ => 0,
            },
            Job::JoinRoom(op, _) => match op@ {
                JoinState::Direct(DirectState::List(_, ListingState::Name { todo, .. })) => {
                    todo.len()
                },
                JoinState::Direct(DirectState::Probe(_, rooms)) => rooms.len(),
                _ => 0,
            },
            _ => 0,
        }
    }
}

/// Every request comes to an end: each answer of the client ends it, or brings it to a
/// later stage, or leaves the stage with fewer rooms to ask.
pub proof fn law_requests_end(job: Job, event: Event, r: JobStep)
    requires
        job.wf(),
        job.awaits(event),
        job.goes_on(event, r),
    ensures
        r matches Step::Perform(next, _) ==> next.stages() < job.stages() || (next.stages()
            == job.stages() && next.rooms_left() < job.rooms_left()),
{
    match job {
        Job::Listing(op, _) => {
            lemma_listing_wf(op);
        },
        Job::JoinRoom(op, _) => {
            if let JoinRoom::Direct(op) = op {
                lemma_direct_wf(op);
            }
        },
        _ => {},
    }
}

/// A request goes on as its operation does: what the operation asks is what the client is
/// asked, and what the operation comes to is the answer, as it is; both stay with whoever asked.
pub proof fn law_job_follows_operation(job: Job, event: Event, r: JobStep)
    requires
        job.awaits(event),
        job.goes_on(event, r),
    ensures
        job matches Job::GetRoom(op, reply) ==> match op.next(event) {
            Step::Perform(next, action) => r == JobStep::Perform(Job::GetRoom(next, reply), action),
            Step::Done(answer) => r == JobStep::Done(Outcome::Room(reply, answer)),
        },
        job matches Job::Login(op, reply) ==> match op.next(event) {
            Step::Perform(next, action) => r == JobStep::Perform(Job::Login(next, reply), action),
            Step::Done(answer) => r == JobStep::Done(Outcome::Info(reply, answer)),
        },
        job matches Job::Members(op, reply) ==> match op.next(event) {
            Step::Perform(next, action) => r == JobStep::Perform(Job::Members(next, reply), action),
            Step::Done(answer) => r == JobStep::Done(Outcome::Members(reply, answer)),
        },
        job matches Job::SetRoom(op, reply) ==> match op.next(event) {
            Step::Perform(next, action) => r == JobStep::Perform(Job::SetRoom(next, reply), action),
            Step::Done(answer) => r == JobStep::Done(Outcome::FieldSet(reply, answer)),
        },
        job matches Job::SendMessage(op, reply) ==> match op.next(event) {
            Step::Perform(next, action) => r == JobStep::Perform(
                Job::SendMessage(next, reply),
                action,
            ),
            Step::Done(answer) => r == JobStep::Done(Outcome::Sent(reply, answer)),
        },
        job matches Job::Verify(op, reply) ==> match op.next(event) {
            Step::Perform(next, action) => r == JobStep::Perform(Job::Verify(next, reply), action),
            Step::Done(answer) => r == JobStep::Done(Outcome::Info(reply, answer)),
        },
        job matches Job::VerifyRequest(op, reply) ==> match op.next(event) {
            Step::Perform(next, action) => r == JobStep::Perform(
                Job::VerifyRequest(next, reply),
                action,
            ),
            Step::Done(answer) => r == JobStep::Done(Outcome::Info(reply, answer)),
        },
        job matches Job::TypingNotice(op) ==> match op.next(event) {
            Step::Perform(next, action) => r == JobStep::Perform(Job::TypingNotice(next), action),
            Step::Done(_) => r == JobStep::Done(Outcome::Nothing),
        },
        job matches Job::Listing(op, reply) ==> match op@.next(event) {
            Step::Perform(state, action) => r matches Step::Perform(Job::Listing(next, to), asked)
                && next@ == state && to == reply && asked == action,
            Step::Done(rooms) => r matches Step::Done(Outcome::Rooms(to, answer)) && to == reply
                && answer@ == rooms,
        },
        job matches Job::JoinRoom(op, reply) ==> match op@.next(event) {
            Step::Perform(state, action) => r matches Step::Perform(Job::JoinRoom(next, to), asked)
                && next@ == state && to == reply && asked == action,
            Step::Done(room_id) => r == JobStep::Done(Outcome::RoomId(reply, room_id)),
        },
        job matches Job::LoadOlder(op, reply) ==> match op.next(event) {
            Step::Perform(next, action) => r == JobStep::Perform(
                Job::LoadOlder(next, reply),
                action,
            ),
            Step::Done(Ok((end, messages))) => r matches Step::Done(
                Outcome::Page(to, Ok((next, page))),
            ) && to == reply && next == end && page@ == messages,
            Step::Done(Err(error)) => r == JobStep::Done(Outcome::Page(reply, Err(error))),
        },
        job matches Job::SpaceMembers(op, reply) ==> match op.result(event) {
            Ok(ids) => r matches Step::Done(Outcome::RoomIds(to, Ok(rooms))) && to == reply
                && rooms@ == ids,
            Err(error) => r == JobStep::Done(Outcome::RoomIds(reply, Err(error))),
        },
{
}

/// The answer of a request is the one that it has come to, as it is, and what sending it comes
/// to is what sending that answer to whoever asked comes to.
pub proof fn law_outcome_answers(outcome: Outcome, delivered: bool)
    ensures
        outcome matches Outcome::Rooms(reply, answer) ==> outcome.answer() == Some(
            Answer::Rooms(answer),
        ) && outcome.can_come_to(delivered) == reply.can_come_to(answer, delivered),
        outcome matches Outcome::Room(reply, answer) ==> outcome.answer() == Some(
            Answer::Room(answer),
        ) && outcome.can_come_to(delivered) == reply.can_come_to(answer, delivered),
        outcome matches Outcome::RoomId(reply, answer) ==> outcome.answer() == Some(
            Answer::RoomId(answer),
        ) && outcome.can_come_to(delivered) == reply.can_come_to(answer, delivered),
        outcome matches Outcome::Page(reply, answer) ==> outcome.answer() == Some(
            Answer::Page(answer),
        ) && outcome.can_come_to(delivered) == reply.can_come_to(answer, delivered),
        outcome matches Outcome::Info(reply, answer) ==> outcome.answer() == Some(
            Answer::Info(answer),
        ) && outcome.can_come_to(delivered) == reply.can_come_to(answer, delivered),
        outcome matches Outcome::Members(reply, answer) ==> outcome.answer() == Some(
            Answer::Members(answer),
        ) && outcome.can_come_to(delivered) == reply.can_come_to(answer, delivered),
        outcome matches Outcome::FieldSet(reply, answer) ==> outcome.answer() == Some(
            Answer::FieldSet(answer),
        ) && outcome.can_come_to(delivered) == reply.can_come_to(answer, delivered),
        outcome matches Outcome::RoomIds(reply, answer) ==> outcome.answer() == Some(
            Answer::RoomIds(answer),
        ) && outcome.can_come_to(delivered) == reply.can_come_to(answer, delivered),
        outcome matches Outcome::Sent(reply, answer) ==> outcome.answer() == Some(
            Answer::Sent(answer),
        ) && outcome.can_come_to(delivered) == reply.can_come_to(answer, delivered),
        outcome is Nothing ==> outcome.answer() is None && outcome.can_come_to(delivered)
            == delivered,
{
}

} // verus!

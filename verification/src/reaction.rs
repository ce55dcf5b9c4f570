//! How the worker reacts to events that the server sends of its own accord.
//!
//! A reaction is a machine: it asks the client for one thing at a time, and ends in a
//! change of what the program knows.
use vstd::pervasive::unreached;
use vstd::prelude::*;

use crate::base::{ClientError, DisplayName, RoomId, UserId};
use crate::handlers::{
    message_received, needed_handlers, on_message, on_room_name, on_typing, room_named,
    typing_changed, Handler, RoomNameEvent, Source, Stage,
};
use crate::store::{
    Application, ApplicationState, MessageKind, MessageTimeStamp, RoomMessageEvent,
};

verus! {

/// A verification, or a request for one: the user at the other end, and what the
/// exchange of events goes by.
#[derive(Debug, PartialEq, Eq)]
pub struct Flow {
    /// The user at the other end.
    pub user_id: UserId,
    /// What the exchange goes by.
    pub flow_id: String,
}

impl Clone for Flow {
    fn clone(&self) -> (r: Flow)
        ensures
            r == *self,
    {
        Flow { user_id: self.user_id.clone(), flow_id: self.flow_id.clone() }
    }
}

/// An event that the server has sent.
#[derive(Debug, PartialEq, Eq)]
pub enum Notice {
    /// These users are typing in a room.
    Typing(RoomId, Vec<UserId>),
    /// A room is named.
    RoomName(RoomId, RoomNameEvent),
    /// A message was sent to a room.
    Message(RoomId, RoomMessageEvent),
    /// A verification has moved on.
    Verification(Source, Stage, Flow),
    /// A verification is requested of the device.
    VerificationRequest(Flow),
}

/// What the client knows of a verification.
#[derive(Clone, Copy, Debug, PartialEq, Eq, Structural)]
pub enum FoundVerification {
    /// Nothing.
    Nothing,
    /// It goes by short authentication strings.
    Sas,
    /// It goes by something else.
    Other,
}

/// Something that the client is to do for a reaction.
#[derive(Debug, PartialEq, Eq)]
pub enum Ask {
    /// Tell a room's display name.
    DisplayName(RoomId),
    /// Look a request for verification up.
    FindRequest(Flow),
    /// Accept a request for verification.
    AcceptRequest(Flow),
    /// Look a verification up.
    FindVerification(Flow),
    /// Accept a verification.
    AcceptVerification(Flow),
}

/// What the client has done, or found.
#[derive(Debug, PartialEq, Eq)]
pub enum Reply {
    /// A room's display name.
    Name(Result<DisplayName, ClientError>),
    /// Whether the request was found.
    Request(bool),
    /// What was found of the verification.
    Verification(FoundVerification),
    /// The request, or the verification, was accepted.
    Accepted,
}

/// A change of what the program knows.
#[derive(Debug, PartialEq, Eq)]
pub enum Change {
    /// None.
    Nothing,
    /// These users are typing in a room.
    Typing(RoomId, Vec<UserId>),
    /// A room is named.
    RoomName(RoomId, RoomNameEvent),
    /// A message was sent to a room, which has this display name.
    Message(RoomId, Result<DisplayName, ClientError>, RoomMessageEvent),
    /// A verification is to be shown to the user.
    Verification(Flow),
}

/// A message that has arrived, with the display name of its room.
#[derive(Debug, PartialEq, Eq)]
pub struct Arrived {
    /// The room.
    pub room_id: RoomId,
    /// The room's display name.
    pub name: Result<DisplayName, ClientError>,
    /// The message.
    pub event: RoomMessageEvent,
}

/// How far a reaction has come.
#[derive(Debug, PartialEq, Eq)]
pub enum Reaction {
    /// The room that a message was sent to is being asked for its name.
    Name(RoomId, RoomMessageEvent),
    /// The request for verification that a message makes is being looked up.
    FindRequest(Arrived),
    /// The request for verification that a message makes is being accepted.
    AcceptRequest(Arrived),
    /// A verification that has moved on is being looked up.
    FindVerification(Stage, Flow),
    /// A verification that was started is being accepted.
    AcceptVerification(Flow),
    /// A request for verification of the device is being looked up.
    FindDeviceRequest(Flow),
    /// A request for verification of the device is being accepted.
    AcceptDeviceRequest,
}

/// How a reaction goes on.
#[derive(Debug, PartialEq, Eq)]
pub enum ReactionStep {
    /// The client is to do this, and its reply is to be handed to the reaction.
    Perform(Reaction, Ask),
    /// The reaction is over, with this change.
    Done(Change),
}

/// The handler that an event is for.
pub open spec fn handler_of(notice: Notice) -> Handler {
    match notice {
        Notice::Typing(_, _) => Handler::Typing,
        Notice::RoomName(_, _) => Handler::RoomName,
        Notice::Message(_, _) => Handler::Message,
        Notice::Verification(source, stage, _) => Handler::Verification(source, stage),
        Notice::VerificationRequest(_) => Handler::VerificationRequest,
    }
}

/// The request for verification that a message makes: the message is its first event.
pub open spec fn request_of(event: RoomMessageEvent) -> Flow {
    Flow { user_id: event.sender, flow_id: event.event_id }
}

/// The change that a message which has arrived makes.
pub open spec fn arrival(arrived: Arrived) -> ReactionStep {
    ReactionStep::Done(Change::Message(arrived.room_id, arrived.name, arrived.event))
}

impl Notice {
    /// How the reaction to the event starts.
    pub open spec fn starts(self) -> ReactionStep {
        match self {
            Notice::Typing(room_id, users) => ReactionStep::Done(Change::Typing(room_id, users)),
            Notice::RoomName(room_id, event) => ReactionStep::Done(
                Change::RoomName(room_id, event),
            ),
            Notice::Message(room_id, event) => ReactionStep::Perform(
                Reaction::Name(room_id, event),
                Ask::DisplayName(room_id),
            ),
            Notice::Verification(_, stage, flow) => ReactionStep::Perform(
                Reaction::FindVerification(stage, flow),
                Ask::FindVerification(flow),
            ),
            Notice::VerificationRequest(flow) => ReactionStep::Perform(
                Reaction::FindDeviceRequest(flow),
                Ask::FindRequest(flow),
            ),
        }
    }

    /// Starts to react to the event.
    pub fn start(self) -> (r: ReactionStep)
        ensures
            r == self.starts(),
    {
        match self {
            Notice::Typing(room_id, users) => ReactionStep::Done(Change::Typing(room_id, users)),
            Notice::RoomName(room_id, event) => ReactionStep::Done(
                Change::RoomName(room_id, event),
            ),
            Notice::Message(room_id, event) => {
                let ask = Ask::DisplayName(room_id.clone());
                ReactionStep::Perform(Reaction::Name(room_id, event), ask)
            },
            Notice::Verification(_, stage, flow) => {
                let ask = Ask::FindVerification(flow.clone());
                ReactionStep::Perform(Reaction::FindVerification(stage, flow), ask)
            },
            Notice::VerificationRequest(flow) => {
                let ask = Ask::FindRequest(flow.clone());
                ReactionStep::Perform(Reaction::FindDeviceRequest(flow), ask)
            },
        }
    }
}

impl Reaction {
    /// Whether the reply is one to what the reaction last asked for. The client has every
    /// request that came to the device.
    pub open spec fn awaits(self, reply: Reply) -> bool {
        match self {
            Reaction::Name(_, _) => reply is Name,
            Reaction::FindRequest(_) => reply is Request,
            Reaction::AcceptRequest(_) => reply is Accepted,
            Reaction::FindVerification(_, _) => reply is Verification,
            Reaction::AcceptVerification(_) => reply is Accepted,
            Reaction::FindDeviceRequest(_) => reply == Reply::Request(true),
            Reaction::AcceptDeviceRequest => reply is Accepted,
        }
    }

    /// How the reaction goes on after a reply.
    pub open spec fn next(self, reply: Reply) -> ReactionStep {
        match (self, reply) {
            (Reaction::Name(room_id, event), Reply::Name(name)) => {
                let arrived = Arrived { room_id, name, event };
                if event.kind is VerificationRequest {
                    ReactionStep::Perform(
                        Reaction::FindRequest(arrived),
                        Ask::FindRequest(request_of(event)),
                    )
                } else {
                    arrival(arrived)
                }
            },
            (Reaction::FindRequest(arrived), Reply::Request(found)) => if found {
                ReactionStep::Perform(
                    Reaction::AcceptRequest(arrived),
                    Ask::AcceptRequest(request_of(arrived.event)),
                )
            } else {
                arrival(arrived)
            },
            (Reaction::AcceptRequest(arrived), Reply::Accepted) => arrival(arrived),
            (Reaction::FindVerification(stage, flow), Reply::Verification(found)) => if !(found
                is Sas) {
                ReactionStep::Done(Change::Nothing)
            } else if stage is Start {
                ReactionStep::Perform(
                    Reaction::AcceptVerification(flow),
                    Ask::AcceptVerification(flow),
                )
            } else {
                ReactionStep::Done(Change::Verification(flow))
            },
            (Reaction::AcceptVerification(flow), Reply::Accepted) => ReactionStep::Done(
                Change::Verification(flow),
            ),
            (Reaction::FindDeviceRequest(flow), Reply::Request(_)) => ReactionStep::Perform(
                Reaction::AcceptDeviceRequest,
                Ask::AcceptRequest(flow),
            ),
            (Reaction::AcceptDeviceRequest, Reply::Accepted) => ReactionStep::Done(
                Change::Nothing,
            ),
            _ => arbitrary(),
        }
    }

    /// Goes on after a reply.
    pub fn step(self, reply: Reply) -> (r: ReactionStep)
        requires
            self.awaits(reply),
        ensures
            r == self.next(reply),
    {
        match (self, reply) {
            (Reaction::Name(room_id, event), Reply::Name(name)) => Arrived {
                room_id,
                name,
                event,
            }.named(),
            (Reaction::FindRequest(arrived), Reply::Request(found)) => if found {
                let ask = Ask::AcceptRequest(arrived.request());
                ReactionStep::Perform(Reaction::AcceptRequest(arrived), ask)
            } else {
                arrived.done()
            },
            (Reaction::AcceptRequest(arrived), Reply::Accepted) => arrived.done(),
            (Reaction::FindVerification(stage, flow), Reply::Verification(found)) => match (
                found,
                stage,
            ) {
                (FoundVerification::Sas, Stage::Start) => {
                    let ask = Ask::AcceptVerification(flow.clone());
                    ReactionStep::Perform(Reaction::AcceptVerification(flow), ask)
                },
                (FoundVerification::Sas, _) => ReactionStep::Done(Change::Verification(flow)),
                _ => ReactionStep::Done(Change::Nothing),
            },
            (Reaction::AcceptVerification(flow), Reply::Accepted) => ReactionStep::Done(
                Change::Verification(flow),
            ),
            (Reaction::FindDeviceRequest(flow), Reply::Request(_)) => ReactionStep::Perform(
                Reaction::AcceptDeviceRequest,
                Ask::AcceptRequest(flow),
            ),
            (Reaction::AcceptDeviceRequest, Reply::Accepted) => ReactionStep::Done(
                Change::Nothing,
            ),
            _ => unreached(),
        }
    }
}

impl Arrived {
    /// The request for verification that the message makes.
    fn request(&self) -> (r: Flow)
        ensures
            r == request_of(self.event),
    {
        Flow { user_id: self.event.sender.clone(), flow_id: self.event.event_id.clone() }
    }

    /// Looks the request up that the message makes, if it makes one.
    fn named(self) -> (r: ReactionStep)
        ensures
            r == Reaction::Name(self.room_id, self.event).next(Reply::Name(self.name)),
    {
        match self.event.kind {
            MessageKind::VerificationRequest => {
                let ask = Ask::FindRequest(self.request());
                ReactionStep::Perform(Reaction::FindRequest(self), ask)
            },
            _ => self.done(),
        }
    }

    fn done(self) -> (r: ReactionStep)
        ensures
            r == arrival(self),
    {
        ReactionStep::Done(Change::Message(self.room_id, self.name, self.event))
    }
}

/// What the program knows after a change.
pub open spec fn changed(state: ApplicationState, change: Change) -> ApplicationState {
    match change {
        Change::Typing(room_id, users) => typing_changed(state, room_id@, users@),
        Change::RoomName(room_id, event) => room_named(state, room_id@, event),
        Change::Message(room_id, name, event) => message_received(state, room_id, name, event),
        Change::Nothing => state,
        Change::Verification(_) => state,
    }
}

impl Change {
    /// Makes the change, and gives back the verification that is to be shown to the user.
    pub fn apply(self, app: &mut Application) -> (r: Option<Flow>)
        requires
            old(app).wf(),
        ensures
            final(app).wf(),
            final(app)@ == changed(old(app)@, self),
            match self {
                Change::Verification(flow) => r == Some(flow),
                _ => r is None,
            },
    {
        match self {
            Change::Nothing => None,
            Change::Typing(room_id, users) => {
                on_typing(app, room_id, users);
                None
            },
            Change::RoomName(room_id, event) => {
                on_room_name(app, room_id, event);
                None
            },
            Change::Message(room_id, name, event) => {
                on_message(app, room_id, name, event);
                None
            },
            Change::Verification(flow) => Some(flow),
        }
    }
}

/// What a reaction comes to while the client replies, one reply after the other.
pub open spec fn drive(step: ReactionStep, replies: Seq<Reply>) -> ReactionStep
    decreases replies.len(),
{
    match step {
        ReactionStep::Perform(reaction, _) if replies.len() > 0 => drive(
            reaction.next(replies.first()),
            replies.drop_first(),
        ),
        _ => step,
    }
}

/// The replies are those to what is asked for, one after the other.
pub open spec fn fits(step: ReactionStep, replies: Seq<Reply>) -> bool
    decreases replies.len(),
{
    replies.len() == 0 || match step {
        ReactionStep::Perform(reaction, _) => reaction.awaits(replies.first()) && fits(
            reaction.next(replies.first()),
            replies.drop_first(),
        ),
        ReactionStep::Done(_) => false,
    }
}

/// There is a handler for every event that the worker reacts to.
pub proof fn law_every_notice_handled(notice: Notice)
    ensures
        needed_handlers().contains(handler_of(notice)),
{
    let all = needed_handlers();
    match notice {
        Notice::Typing(_, _) => assert(all[0] == handler_of(notice)),
        Notice::RoomName(_, _) => assert(all[1] == handler_of(notice)),
        Notice::Message(_, _) => assert(all[2] == handler_of(notice)),
        Notice::Verification(Source::Room, Stage::Start, _) => assert(all[3] == handler_of(notice)),
        Notice::Verification(Source::Room, Stage::Key, _) => assert(all[4] == handler_of(notice)),
        Notice::Verification(Source::Room, Stage::Done, _) => assert(all[5] == handler_of(notice)),
        Notice::VerificationRequest(_) => assert(all[6] == handler_of(notice)),
        Notice::Verification(Source::ToDevice, Stage::Start, _) => assert(all[7] == handler_of(
            notice,
        )),
        Notice::Verification(Source::ToDevice, Stage::Key, _) => assert(all[8] == handler_of(
            notice,
        )),
        Notice::Verification(Source::ToDevice, Stage::Done, _) => assert(all[9] == handler_of(
            notice,
        )),
    }
}

/// Whatever the client replies, a message that has arrived is kept, with the name that
/// its room has told: the reaction to it ends, after three replies at most, in no other
/// change.
pub proof fn law_message_kept(room_id: RoomId, event: RoomMessageEvent, replies: Seq<Reply>)
    requires
        fits(Notice::Message(room_id, event).starts(), replies),
    ensures
        drive(Notice::Message(room_id, event).starts(), replies) matches ReactionStep::Done(change)
            ==> replies[0] matches Reply::Name(name) && change == Change::Message(
            room_id,
            name,
            event,
        ),
        replies.len() <= 3,
        replies.len() == 3 ==> drive(Notice::Message(room_id, event).starts(), replies) is Done,
{
    reveal_with_fuel(drive, 5);
    reveal_with_fuel(fits, 5);
}

/// A request for verification in a room is accepted exactly when it came as a message
/// that makes one and the client has it.
pub proof fn law_request_accepted(
    room_id: RoomId,
    event: RoomMessageEvent,
    name: Result<DisplayName, ClientError>,
    found: bool,
)
    ensures
        event.kind is VerificationRequest ==> {
            let end = drive(
                Notice::Message(room_id, event).starts(),
                seq![Reply::Name(name), Reply::Request(found)],
            );
            if found {
                end matches ReactionStep::Perform(_, ask) && ask == Ask::AcceptRequest(
                    request_of(event),
                )
            } else {
                end is Done
            }
        },
        !(event.kind is VerificationRequest) ==> drive(
            Notice::Message(room_id, event).starts(),
            seq![Reply::Name(name)],
        ) is Done,
{
    reveal_with_fuel(drive, 3);
}

/// A verification by short authentication strings is shown to the user at every stage;
/// one that has just been started is accepted first, and no other is. Any other
/// verification is ignored.
pub proof fn law_verification_shown(
    source: Source,
    stage: Stage,
    flow: Flow,
    found: FoundVerification,
)
    ensures
        ({
            let start = Notice::Verification(source, stage, flow).starts();
            let end = drive(start, seq![Reply::Verification(found)]);
            let accepted = drive(start, seq![Reply::Verification(found), Reply::Accepted]);
            match (found, stage) {
                (FoundVerification::Sas, Stage::Start) => {
                    &&& end matches ReactionStep::Perform(_, ask) && ask
                        == Ask::AcceptVerification(flow)
                    &&& accepted == ReactionStep::Done(Change::Verification(flow))
                },
                (FoundVerification::Sas, _) => end == ReactionStep::Done(
                    Change::Verification(flow),
                ),
                _ => end == ReactionStep::Done(Change::Nothing),
            }
        }),
{
    reveal_with_fuel(drive, 3);
}

/// A request for verification of the device is always accepted.
pub proof fn law_device_request_accepted(flow: Flow)
    ensures
        drive(Notice::VerificationRequest(flow).starts(), seq![Reply::Request(true)])
            == ReactionStep::Perform(Reaction::AcceptDeviceRequest, Ask::AcceptRequest(flow)),
        drive(
            Notice::VerificationRequest(flow).starts(),
            seq![Reply::Request(true), Reply::Accepted],
        ) == ReactionStep::Done(Change::Nothing),
{
    reveal_with_fuel(drive, 3);
}

/// Who is typing and what a room is called is taken note of at once, just as the server tells
/// it.
pub proof fn law_noted_at_once(room_id: RoomId, users: Vec<UserId>, event: RoomNameEvent)
    ensures
        Notice::Typing(room_id, users).starts() == ReactionStep::Done(
            Change::Typing(room_id, users),
        ),
        Notice::RoomName(room_id, event).starts() == ReactionStep::Done(
            Change::RoomName(room_id, event),
        ),
{
}

/// A message has its room asked for its name. If it asks for a verification, the request of its
/// sender that goes by the message's event is looked up, and accepted if the client has it; then
/// the message is kept whole, with the name that the room has told. Any other message is kept at
/// once.
pub proof fn law_message_reaction(
    room_id: RoomId,
    event: RoomMessageEvent,
    name: Result<DisplayName, ClientError>,
)
    ensures
        Notice::Message(room_id, event).starts() matches ReactionStep::Perform(naming, asked) && {
            let kept = ReactionStep::Done(Change::Message(room_id, name, event));
            let named = naming.next(Reply::Name(name));
            let request = Flow { user_id: event.sender, flow_id: event.event_id };
            &&& asked == Ask::DisplayName(room_id)
            &&& !(event.kind is VerificationRequest) ==> named == kept
            &&& event.kind is VerificationRequest ==> (named matches ReactionStep::Perform(
                find,
                ask,
            ) && {
                &&& ask == Ask::FindRequest(request)
                &&& find.next(Reply::Request(false)) == kept
                &&& find.next(Reply::Request(true)) matches ReactionStep::Perform(accept, last) && {
                    &&& last == Ask::AcceptRequest(request)
                    &&& accept.next(Reply::Accepted) == kept
                }
            })
        },
{
}

/// A verification that has moved on is looked up, wherever the event came from. One by short
/// authentication strings is shown to the user; only if it was just started is it accepted
/// first. Of any other, and of one that the client does not have, nothing is shown.
pub proof fn law_verification_reaction(source: Source, stage: Stage, flow: Flow)
    ensures
        Notice::Verification(source, stage, flow).starts() matches ReactionStep::Perform(
            find,
            asked,
        ) && {
            let shown = ReactionStep::Done(Change::Verification(flow));
            let found = find.next(Reply::Verification(FoundVerification::Sas));
            &&& asked == Ask::FindVerification(flow)
            &&& find.next(Reply::Verification(FoundVerification::Nothing)) == ReactionStep::Done(
                Change::Nothing,
            )
            &&& find.next(Reply::Verification(FoundVerification::Other)) == ReactionStep::Done(
                Change::Nothing,
            )
            &&& !(stage is Start) ==> found == shown
            &&& stage is Start ==> (found matches ReactionStep::Perform(accept, ask) && {
                &&& ask == Ask::AcceptVerification(flow)
                &&& accept.next(Reply::Accepted) == shown
            })
        },
{
}

/// A request of the device is looked up and accepted, and then the device is done with it.
pub proof fn law_device_request_reaction(flow: Flow)
    ensures
        Notice::VerificationRequest(flow).starts() matches ReactionStep::Perform(find, asked) && {
            &&& asked == Ask::FindRequest(flow)
            &&& find.next(Reply::Request(true)) matches ReactionStep::Perform(accept, ask) && {
                &&& ask == Ask::AcceptRequest(flow)
                &&& accept.next(Reply::Accepted) == ReactionStep::Done(Change::Nothing)
            }
        },
{
}

/// What was typed, named or sent in a room is known of that room once the change is made:
/// everyone who types but for the user of the program, the name that was given, and the message
/// under its server's time. The other changes leave everything as it was.
pub proof fn law_changes_made(
    state: ApplicationState,
    room_id: RoomId,
    users: Vec<UserId>,
    room_name: String,
    name: Result<DisplayName, ClientError>,
    event: RoomMessageEvent,
    flow: Flow,
)
    ensures
        ({
            let typed = changed(state, Change::Typing(room_id, users)).rooms;
            let named = changed(
                state,
                Change::RoomName(room_id, RoomNameEvent::Original(Some(room_name))),
            ).rooms;
            let sent = changed(state, Change::Message(room_id, name, event)).rooms;
            let at = (MessageTimeStamp::OriginServer(event.origin_server_ts), event.event_id@);
            let echo = (MessageTimeStamp::LocalEcho, event.event_id@);
            &&& typed.contains_key(room_id@) && typed[room_id@].typing == users@.filter(
                |u: UserId| u@ != state.user_id@,
            )
            &&& named.contains_key(room_id@) && named[room_id@].name == Some(room_name@)
            &&& sent.contains_key(room_id@) && sent[room_id@].messages.contains_key(at)
            &&& sent[room_id@].messages[at].event == event
            &&& sent[room_id@].messages[at].room_id == room_id
            &&& !sent[room_id@].messages.contains_key(echo)
        }),
        changed(state, Change::RoomName(room_id, RoomNameEvent::Original(None))) == state,
        changed(state, Change::RoomName(room_id, RoomNameEvent::Redacted)) == state,
        changed(state, Change::Nothing) == state,
        changed(state, Change::Verification(flow)) == state,
{
}

/// A reaction takes every reply to what it has asked for, whatever came of it; only of a request
/// of the device does it count on the client to have it.
pub proof fn law_replies_taken(
    room_id: RoomId,
    event: RoomMessageEvent,
    arrived: Arrived,
    name: Result<DisplayName, ClientError>,
    found: bool,
    stage: Stage,
    flow: Flow,
    verification: FoundVerification,
)
    ensures
        Reaction::Name(room_id, event).awaits(Reply::Name(name)),
        Reaction::FindRequest(arrived).awaits(Reply::Request(found)),
        Reaction::AcceptRequest(arrived).awaits(Reply::Accepted),
        Reaction::FindVerification(stage, flow).awaits(Reply::Verification(verification)),
        Reaction::AcceptVerification(flow).awaits(Reply::Accepted),
        Reaction::FindDeviceRequest(flow).awaits(Reply::Request(true)),
        Reaction::AcceptDeviceRequest.awaits(Reply::Accepted),
{
}

} // verus!

//! Sending a message to a room.
use vstd::pervasive::unreached;
use vstd::prelude::*;

use crate::base::{
    reported, unknown_room, ClientError, EchoPair, EventId, IambError, IambResult, Room, RoomId,
    TextMessage, UIError,
};
use crate::client::{Action, Event, Step};

verus! {

/// A message on its way to a room.
#[derive(Debug, PartialEq, Eq)]
pub struct Outgoing {
    /// The room.
    pub room_id: RoomId,
    /// The message.
    pub message: TextMessage,
}

/// Sends a message to a room, joining the room first if need be.
#[derive(Debug, PartialEq, Eq)]
pub enum SendMessage {
    /// The room is being looked up among the joined rooms.
    Lookup(Outgoing),
    /// The room was not found, and is being joined.
    Join(Outgoing),
    /// The room was joined, and is being looked up again.
    LookupAgain(Outgoing),
    /// The room was found, and is being sent the message.
    Send(TextMessage),
}

/// A step of sending a message.
pub type SendStep = Step<SendMessage, IambResult<EchoPair>>;

impl SendMessage {
    /// Whether the event answers what the operation last asked for.
    pub open spec fn awaits(self, event: Event) -> bool {
        match self {
            SendMessage::Lookup(_) => event is Room,
            SendMessage::Join(_) => event is Done,
            SendMessage::LookupAgain(_) => event is Room,
            SendMessage::Send(_) => event is Sent,
        }
    }

    /// How the operation starts.
    pub open spec fn starts(room_id: RoomId, msg: String) -> SendStep {
        Step::Perform(
            SendMessage::Lookup(Outgoing { room_id, message: TextMessage { body: msg } }),
            Action::GetJoinedRoom(room_id),
        )
    }

    /// How the operation goes on after an event.
    pub open spec fn next(self, event: Event) -> SendStep {
        match (self, event) {
            (SendMessage::Lookup(out), Event::Room(Some(room))) => Step::Perform(
                SendMessage::Send(out.message),
                Action::Send(room.room_id, out.message),
            ),
            (SendMessage::Lookup(out), Event::Room(None)) => Step::Perform(
                SendMessage::Join(out),
                Action::JoinRoomById(out.room_id),
            ),
            (SendMessage::Join(out), Event::Done(Ok(_))) => Step::Perform(
                SendMessage::LookupAgain(out),
                Action::GetJoinedRoom(out.room_id),
            ),
            (SendMessage::Join(out), Event::Done(Err(_))) => Step::Done(
                Err(unknown_room(out.room_id)),
            ),
            (SendMessage::LookupAgain(out), Event::Room(Some(room))) => Step::Perform(
                SendMessage::Send(out.message),
                Action::Send(room.room_id, out.message),
            ),
            (SendMessage::LookupAgain(out), Event::Room(None)) => Step::Done(
                Err(unknown_room(out.room_id)),
            ),
            (SendMessage::Send(message), Event::Sent(Ok(event_id))) => Step::Done(
                Ok((event_id, message)),
            ),
            (SendMessage::Send(_), Event::Sent(Err(error))) => Step::Done(Err(reported(error))),
            _ => arbitrary(),
        }
    }

    /// Starts sending a message.
    pub fn start(room_id: RoomId, msg: String) -> (r: SendStep)
        ensures
            r == SendMessage::starts(room_id, msg),
    {
        let action = Action::GetJoinedRoom(room_id.clone());
        let message = TextMessage { body: msg };
        Step::Perform(SendMessage::Lookup(Outgoing { room_id, message }), action)
    }

    /// Goes on after an event.
    pub fn step(self, event: Event) -> (r: SendStep)
        requires
            self.awaits(event),
        ensures
            r == self.next(event),
    {
        match (self, event) {
            (SendMessage::Lookup(out), Event::Room(found)) => match found {
                Some(room) => out.send_to(room),
                None => {
                    let action = Action::JoinRoomById(out.room_id.clone());
                    Step::Perform(SendMessage::Join(out), action)
                },
            },
            (SendMessage::Join(out), Event::Done(joined)) => match joined {
                Ok(_) => {
                    let action = Action::GetJoinedRoom(out.room_id.clone());
                    Step::Perform(SendMessage::LookupAgain(out), action)
                },
                Err(_) => Step::Done(Err(UIError::unknown_room(out.room_id))),
            },
            (SendMessage::LookupAgain(out), Event::Room(found)) => match found {
                Some(room) => out.send_to(room),
                None => Step::Done(Err(UIError::unknown_room(out.room_id))),
            },
            (SendMessage::Send(message), Event::Sent(sent)) => match sent {
                Ok(event_id) => Step::Done(Ok((event_id, message))),
                Err(error) => Step::Done(Err(UIError::client(error))),
            },
            _ => unreached(),
        }
    }
}

impl Outgoing {
    /// Sends the message to the room that was found.
    fn send_to(self, room: Room) -> (r: SendStep)
        ensures
            r == SendStep::Perform(
                SendMessage::Send(self.message),
                Action::Send(room.room_id, self.message),
            ),
    {
        let copy = TextMessage { body: self.message.body.clone() };
        Step::Perform(SendMessage::Send(self.message), Action::Send(room.room_id, copy))
    }
}

/// What sending comes to while the client answers, one event after the other.
pub open spec fn drive(step: SendStep, events: Seq<Event>) -> SendStep
    decreases events.len(),
{
    match step {
        Step::Perform(op, _) if events.len() > 0 => drive(
            op.next(events.first()),
            events.drop_first(),
        ),
        _ => step,
    }
}

/// What a message that reached a room comes to.
pub open spec fn echo(msg: String, sent: Result<EventId, ClientError>) -> IambResult<EchoPair> {
    match sent {
        Ok(event_id) => Ok((event_id, TextMessage { body: msg })),
        Err(error) => Err(reported(error)),
    }
}

/// A message to a joined room is sent without joining; it comes back as it was
/// given, with the event that it became.
pub proof fn law_send_to_joined(
    room_id: RoomId,
    msg: String,
    room: Room,
    sent: Result<EventId, ClientError>,
)
    ensures
        drive(SendMessage::starts(room_id, msg), seq![Event::Room(Some(room))])
            == SendStep::Perform(
            SendMessage::Send(TextMessage { body: msg }),
            Action::Send(room.room_id, TextMessage { body: msg }),
        ),
        drive(
            SendMessage::starts(room_id, msg),
            seq![Event::Room(Some(room)), Event::Sent(sent)],
        ) == SendStep::Done(echo(msg, sent)),
{
    reveal_with_fuel(drive, 3);
}

/// A message to a room that is joined on the way is sent once the room is found.
pub proof fn law_send_after_join(
    room_id: RoomId,
    msg: String,
    room: Room,
    sent: Result<EventId, ClientError>,
)
    ensures
        drive(
            SendMessage::starts(room_id, msg),
            seq![Event::Room(None), Event::Done(Ok(())), Event::Room(Some(room))],
        ) == SendStep::Perform(
            SendMessage::Send(TextMessage { body: msg }),
            Action::Send(room.room_id, TextMessage { body: msg }),
        ),
        drive(
            SendMessage::starts(room_id, msg),
            seq![
                Event::Room(None),
                Event::Done(Ok(())),
                Event::Room(Some(room)),
                Event::Sent(sent),
            ],
        ) == SendStep::Done(echo(msg, sent)),
{
    reveal_with_fuel(drive, 5);
}

/// A room that cannot be joined, or is not found even then, is reported as unknown,
/// and nothing is sent.
pub proof fn law_send_to_unknown(room_id: RoomId, msg: String, error: ClientError)
    ensures
        drive(
            SendMessage::starts(room_id, msg),
            seq![Event::Room(None), Event::Done(Err(error))],
        ) == SendStep::Done(Err(unknown_room(room_id))),
        drive(
            SendMessage::starts(room_id, msg),
            seq![Event::Room(None), Event::Done(Ok(())), Event::Room(None)],
        ) == SendStep::Done(Err(unknown_room(room_id))),
{
    reveal_with_fuel(drive, 4);
}

/// A message goes to the room that was found among those that the user has joined, word for
/// word; it comes back the same, with the event that it became, or with the client's error.
pub proof fn law_message_sent(
    room_id: RoomId,
    msg: String,
    room: Room,
    sent: Result<EventId, ClientError>,
)
    ensures
        SendMessage::starts(room_id, msg) matches Step::Perform(op, asked) && {
            &&& asked == Action::GetJoinedRoom(room_id)
            &&& op.next(Event::Room(Some(room))) matches Step::Perform(send, ask) && {
                &&& ask matches Action::Send(to, message) && to == room.room_id && message.body
                    == msg
                &&& sent matches Ok(event_id) ==> (send.next(Event::Sent(sent)) matches Step::Done(
                    Ok((id, echoed)),
                ) && id == event_id && echoed.body == msg)
                &&& sent matches Err(error) ==> send.next(Event::Sent(sent)) == SendStep::Done(
                    Err(UIError::Application(IambError::Client(error))),
                )
            }
        },
{
}

/// A room that is not among those that the user has joined is joined first, by the identifier
/// that was given, and looked up again; then the message goes to the room that was found, as it
/// would have at once. A room that cannot be joined, or is not there even then, is reported by
/// its identifier.
pub proof fn law_message_joins_first(
    room_id: RoomId,
    msg: String,
    room: Room,
    sent: Result<EventId, ClientError>,
    error: ClientError,
)
    ensures
        SendMessage::starts(room_id, msg) matches Step::Perform(op, _) && {
            &&& op.next(Event::Room(None)) matches Step::Perform(join, ask) && {
                &&& ask == Action::JoinRoomById(room_id)
                &&& join.next(Event::Done(Err(error))) == SendStep::Done(
                    Err(UIError::Application(IambError::UnknownRoom(room_id))),
                )
                &&& join.next(Event::Done(Ok(()))) matches Step::Perform(again, look) && {
                    &&& look == Action::GetJoinedRoom(room_id)
                    &&& again.next(Event::Room(None)) == SendStep::Done(
                        Err(UIError::Application(IambError::UnknownRoom(room_id))),
                    )
                    &&& again.next(Event::Room(Some(room))) matches Step::Perform(send, last) && {
                        &&& last matches Action::Send(to, message) && to == room.room_id
                            && message.body == msg
                        &&& sent matches Ok(event_id) ==> (send.next(
                            Event::Sent(sent),
                        ) matches Step::Done(Ok((id, echoed))) && id == event_id && echoed.body
                            == msg)
                        &&& sent matches Err(failure) ==> send.next(Event::Sent(sent))
                            == SendStep::Done(
                            Err(UIError::Application(IambError::Client(failure))),
                        )
                    }
                }
            }
        },
{
}

} // verus!

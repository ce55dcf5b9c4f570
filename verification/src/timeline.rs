//! Picking the messages out of a room's history.
use matrix_sdk::ruma::events::{AnyMessageLikeEvent, AnyTimelineEvent};
use matrix_sdk::ruma::serde::Raw;

use vstd::prelude::*;

verus! {

/// What an event of a room's history is.
#[derive(Clone, Copy, Debug, PartialEq, Eq, Structural)]
pub enum TimelineKind {
    /// A message.
    RoomMessage,
    /// Another event that is not part of the room's state.
    OtherMessageLike,
    /// A change of the room's state.
    State,
    /// Not an event that can be read.
    Invalid,
}

/// What the JSON text of an event describes.
pub uninterp spec fn timeline_kind(json: Seq<char>) -> TimelineKind;

/// Calls `Raw::<AnyTimelineEvent>::deserialize` on the JSON text, and tells the
/// variants of the event apart.
///
/// The contract claims that the outcome depends on the characters of the text
/// alone; which texts describe which event is left unsaid.
#[verifier::external_body]
pub(crate) fn read_timeline_event(json: &str) -> (r: TimelineKind)
    ensures
        r == timeline_kind(json@),
{
    let raw = match Raw::<AnyTimelineEvent>::from_json_string(json.to_owned()) {
        Ok(raw) => raw,
        Err(_) => return TimelineKind::Invalid,
    };
    match raw.deserialize() {
        Ok(AnyTimelineEvent::MessageLike(AnyMessageLikeEvent::RoomMessage(_))) => {
            TimelineKind::RoomMessage
        },
        Ok(AnyTimelineEvent::MessageLike(_)) => TimelineKind::OtherMessageLike,
        Ok(AnyTimelineEvent::State(_)) => TimelineKind::State,
        Err(_) => TimelineKind::Invalid,
    }
}

/// The kinds of the events of a page.
pub open spec fn timeline_kinds(chunk: Seq<String>) -> Seq<TimelineKind> {
    chunk.map_values(|json: String| timeline_kind(json@))
}

/// The messages among the events of a page, in order, given the events' kinds.
pub open spec fn messages_of(chunk: Seq<String>, kinds: Seq<TimelineKind>) -> Seq<String>
    decreases chunk.len(),
{
    if chunk.len() == 0 {
        Seq::empty()
    } else {
        let front = messages_of(chunk.drop_last(), kinds.drop_last());
        if kinds.last() is RoomMessage {
            front.push(chunk.last())
        } else {
            front
        }
    }
}

/// Keeps the messages of a page and drops its other events.
pub fn keep_messages(chunk: &Vec<String>, kinds: &Vec<TimelineKind>) -> (r: Vec<String>)
    requires
        kinds@.len() == chunk@.len(),
    ensures
        r@ == messages_of(chunk@, kinds@),
{
    let mut messages: Vec<String> = Vec::new();
    let mut i: usize = 0;
    while i < chunk.len()
        invariant
            i <= chunk@.len(),
            kinds@.len() == chunk@.len(),
            messages@ == messages_of(chunk@.take(i as int), kinds@.take(i as int)),
        decreases chunk@.len() - i,
    {
        if let TimelineKind::RoomMessage = kinds[i] {
            messages.push(chunk[i].clone());
        }
        proof {
            assert(chunk@.take(i + 1).drop_last() =~= chunk@.take(i as int));
            assert(kinds@.take(i + 1).drop_last() =~= kinds@.take(i as int));
        }
        i = i + 1;
    }
    proof {
        assert(chunk@.take(i as int) =~= chunk@);
        assert(kinds@.take(i as int) =~= kinds@);
    }
    messages
}

/// Picks the messages out of a page of a room's history.
pub fn room_messages(chunk: &Vec<String>) -> (r: Vec<String>)
    ensures
        r@ == messages_of(chunk@, timeline_kinds(chunk@)),
{
    let mut kinds: Vec<TimelineKind> = Vec::new();
    let mut i: usize = 0;
    while i < chunk.len()
        invariant
            i <= chunk@.len(),
            kinds@ == timeline_kinds(chunk@).take(i as int),
        decreases chunk@.len() - i,
    {
        kinds.push(read_timeline_event(chunk[i].as_str()));
        i = i + 1;
    }
    proof {
        assert(kinds@ =~= timeline_kinds(chunk@));
    }
    keep_messages(chunk, &kinds)
}

/// A page's messages are exactly those of its events that are messages, in the
/// order of the page.
pub proof fn law_messages_are_filtered(chunk: Seq<String>)
    ensures
        messages_of(chunk, timeline_kinds(chunk)) == chunk.filter(
            |json: String| timeline_kind(json@) is RoomMessage,
        ),
    decreases chunk.len(),
{
    let p = |json: String| timeline_kind(json@) is RoomMessage;
    reveal(Seq::filter);
    if chunk.len() > 0 {
        law_messages_are_filtered(chunk.drop_last());
        assert(timeline_kinds(chunk).drop_last() =~= timeline_kinds(chunk.drop_last()));
    } else {
        assert(chunk.filter(p) =~= Seq::<String>::empty());
    }
}

/// Given the kinds of its events, a page's messages are those of its events that have the kind
/// of a message, each as it is and in the order of the page.
pub proof fn law_messages_by_kind(chunk: Seq<String>, kinds: Seq<TimelineKind>)
    requires
        kinds.len() == chunk.len(),
    ensures
        messages_of(chunk, kinds) == chunk.zip_with(kinds).filter(
            |event: (String, TimelineKind)| event.1 is RoomMessage,
        ).map_values(|event: (String, TimelineKind)| event.0),
    decreases chunk.len(),
{
    let p = |event: (String, TimelineKind)| event.1 is RoomMessage;
    let f = |event: (String, TimelineKind)| event.0;
    let all = chunk.zip_with(kinds);
    reveal(Seq::filter);
    if chunk.len() == 0 {
        assert(all.filter(p) =~= Seq::empty());
        assert(all.filter(p).map_values(f) =~= Seq::empty());
    } else {
        law_messages_by_kind(chunk.drop_last(), kinds.drop_last());
        let front = chunk.drop_last().zip_with(kinds.drop_last());
        assert(all.drop_last() =~= front);
        assert(all.last() == (chunk.last(), kinds.last()));
        if kinds.last() is RoomMessage {
            assert(all.filter(p) =~= front.filter(p).push(all.last()));
            assert(all.filter(p).map_values(f) =~= front.filter(p).map_values(f).push(
                chunk.last(),
            ));
        } else {
            assert(all.filter(p) =~= front.filter(p));
        }
    }
}

/// The kind of each event of a page is told from the event's own text, and from no other.
pub proof fn law_kinds_by_text(chunk: Seq<String>)
    ensures
        timeline_kinds(chunk).len() == chunk.len(),
        forall|i: int|
            0 <= i < chunk.len() ==> #[trigger] timeline_kinds(chunk)[i] == timeline_kind(
                chunk[i]@,
            ),
{
}

} // verus!

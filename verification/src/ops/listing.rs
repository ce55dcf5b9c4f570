//! Listing the rooms that the user has joined.
use vstd::multiset::Multiset;
use vstd::pervasive::unreached;
use vstd::prelude::*;

use crate::base::{ClientError, DisplayName, Room};
use crate::client::{Action, Event, Step};

verus! {

/// Which of the joined rooms to list.
#[derive(Clone, Copy, Debug, PartialEq, Eq, Structural)]
pub enum Listing {
    /// Direct chats.
    DirectMessages,
    /// Rooms that are neither direct chats nor spaces.
    JoinedRooms,
    /// Spaces.
    Spaces,
}

/// Whether a listing has a room in it.
pub open spec fn selects(kind: Listing, room: Room) -> bool {
    match kind {
        Listing::DirectMessages => !room.is_space && room.is_direct,
        Listing::JoinedRooms => !room.is_space && !room.is_direct,
        Listing::Spaces => room.is_space,
    }
}

/// The rooms that a listing has in it, in order.
pub open spec fn selected(kind: Listing, rooms: Seq<Room>) -> Seq<Room> {
    rooms.filter(|room: Room| selects(kind, room))
}

impl Listing {
    /// Whether the listing has the room in it.
    pub fn selects(self, room: &Room) -> (r: bool)
        ensures
            r == selects(self, *room),
    {
        match self {
            Listing::DirectMessages => !room.is_space && room.is_direct,
            Listing::JoinedRooms => !room.is_space && !room.is_direct,
            Listing::Spaces => room.is_space,
        }
    }

    /// Picks the rooms that the listing has in it.
    pub fn select(self, rooms: &Vec<Room>) -> (r: Vec<Room>)
        ensures
            r@ == selected(self, rooms@),
    {
        let mut picked: Vec<Room> = Vec::new();
        let mut i: usize = 0;
        proof {
            reveal(Seq::filter);
            assert(selected(self, rooms@.take(0)) =~= Seq::<Room>::empty());
        }
        while i < rooms.len()
            invariant
                i <= rooms@.len(),
                picked@ == selected(self, rooms@.take(i as int)),
            decreases rooms@.len() - i,
        {
            proof {
                reveal(Seq::filter);
                assert(rooms@.take(i + 1).drop_last() =~= rooms@.take(i as int));
                assert(rooms@.take(i + 1).last() == rooms@[i as int]);
            }
            if self.selects(&rooms[i]) {
                picked.push(rooms[i].clone());
            }
            i = i + 1;
        }
        proof {
            assert(rooms@.take(i as int) =~= rooms@);
        }
        picked
    }
}

/// How far a listing has come: the rooms still to be named, the first of which is
/// being asked for its name, and those that have theirs.
#[verifier::ext_equal]
pub ghost enum ListingState {
    /// The joined rooms are being fetched.
    Fetch(Listing),
    /// The rooms are being named.
    Name {
        /// The rooms without a name.
        todo: Seq<Room>,
        /// The rooms with their names.
        named: Seq<(Room, DisplayName)>,
    },
}

/// A step of a listing.
pub type ListingStep = Step<ListingState, Seq<(Room, DisplayName)>>;

/// Asks the next room for its name, or ends the listing.
pub open spec fn name_next(todo: Seq<Room>, named: Seq<(Room, DisplayName)>) -> ListingStep {
    if todo.len() == 0 {
        Step::Done(named)
    } else {
        Step::Perform(
            ListingState::Name { todo, named },
            Action::DisplayName(todo.first().room_id),
        )
    }
}

/// The list with one more room, if the room has a name.
pub open spec fn add_named(
    named: Seq<(Room, DisplayName)>,
    room: Room,
    name: Result<DisplayName, ClientError>,
) -> Seq<(Room, DisplayName)> {
    match name {
        Ok(name) => named.push((room, name)),
        Err(_) => named,
    }
}

impl ListingState {
    /// Whether the event answers what the listing last asked for.
    pub open spec fn awaits(self, event: Event) -> bool {
        match self {
            ListingState::Fetch(_) => event is Rooms,
            ListingState::Name { .. } => event is Name,
        }
    }

    /// How the listing goes on after an event: a room without a name is left out.
    pub open spec fn next(self, event: Event) -> ListingStep {
        match (self, event) {
            (ListingState::Fetch(kind), Event::Rooms(rooms)) => name_next(
                selected(kind, rooms@),
                Seq::empty(),
            ),
            (ListingState::Name { todo, named }, Event::Name(name)) => name_next(
                todo.drop_first(),
                add_named(named, todo.first(), name),
            ),
            _ => arbitrary(),
        }
    }
}

/// Rooms that are being named, one after the other.
#[derive(Debug, PartialEq, Eq)]
pub struct Naming {
    rooms: Vec<Room>,
    at: usize,
    named: Vec<(Room, DisplayName)>,
}

/// Lists joined rooms with their names.
#[derive(Debug, PartialEq, Eq)]
pub enum RoomListing {
    /// The joined rooms are being fetched.
    Fetch(Listing),
    /// The rooms are being named.
    Name(Naming),
}

impl View for RoomListing {
    type V = ListingState;

    closed spec fn view(&self) -> ListingState {
        match self {
            RoomListing::Fetch(kind) => ListingState::Fetch(*kind),
            RoomListing::Name(naming) => ListingState::Name {
                todo: naming.rooms@.skip(naming.at as int),
                named: naming.named@,
            },
        }
    }
}

/// The step of a listing that a step of the machine stands for.
pub open spec fn listing_step(step: Step<RoomListing, Vec<(Room, DisplayName)>>) -> ListingStep {
    match step {
        Step::Perform(op, action) => Step::Perform(op@, action),
        Step::Done(rooms) => Step::Done(rooms@),
    }
}

impl RoomListing {
    /// The listing has a room to be named.
    pub closed spec fn wf(self) -> bool {
        match self {
            RoomListing::Fetch(_) => true,
            RoomListing::Name(naming) => naming.at < naming.rooms@.len(),
        }
    }

    /// Starts listing rooms.
    pub fn start(kind: Listing) -> (r: Step<RoomListing, Vec<(Room, DisplayName)>>)
        ensures
            r matches Step::Perform(op, action) && op.wf() && op@ == ListingState::Fetch(kind)
                && action == Action::JoinedRooms,
    {
        Step::Perform(RoomListing::Fetch(kind), Action::JoinedRooms)
    }

    /// Goes on after an event.
    pub fn step(self, event: Event) -> (r: Step<RoomListing, Vec<(Room, DisplayName)>>)
        requires
            self.wf(),
            self@.awaits(event),
        ensures
            listing_step(r) == self@.next(event),
            r matches Step::Perform(op, _) ==> op.wf(),
    {
        match (self, event) {
            (RoomListing::Fetch(kind), Event::Rooms(rooms)) => {
                let picked = kind.select(&rooms);
                proof {
                    assert(picked@.skip(0) =~= picked@);
                }
                Naming { rooms: picked, at: 0, named: Vec::new() }.go_on()
            },
            (RoomListing::Name(naming), Event::Name(name)) => {
                let Naming { rooms, at, mut named } = naming;
                if let Ok(name) = name {
                    named.push((rooms[at].clone(), name));
                }
                proof {
                    assert(at < rooms.len());
                    assert(rooms@.skip(at as int).drop_first() =~= rooms@.skip(at + 1));
                }
                Naming { rooms, at: at + 1, named }.go_on()
            },
            _ => unreached(),
        }
    }
}

impl Naming {
    /// Asks the next room for its name, or ends the listing.
    fn go_on(self) -> (r: Step<RoomListing, Vec<(Room, DisplayName)>>)
        requires
            self.at <= self.rooms@.len(),
        ensures
            listing_step(r) == name_next(self.rooms@.skip(self.at as int), self.named@),
            r matches Step::Perform(op, _) ==> op.wf(),
    {
        if self.at < self.rooms.len() {
            let action = Action::DisplayName(self.rooms[self.at].room_id.clone());
            Step::Perform(RoomListing::Name(self), action)
        } else {
            Step::Done(self.named)
        }
    }
}

impl ListingState {
    /// There is a room to be named.
    pub open spec fn wf(self) -> bool {
        match self {
            ListingState::Fetch(_) => true,
            ListingState::Name { todo, .. } => todo.len() > 0,
        }
    }
}

/// A listing that is well-formed stands for one that is.
pub proof fn lemma_listing_wf(op: RoomListing)
    requires
        op.wf(),
    ensures
        op@.wf(),
{
}

/// What a listing comes to while its rooms answer, one after the other.
pub open spec fn answer_names(
    step: ListingStep,
    names: Seq<Result<DisplayName, ClientError>>,
) -> ListingStep
    decreases names.len(),
{
    match step {
        Step::Perform(state, _) if names.len() > 0 => answer_names(
            state.next(Event::Name(names.first())),
            names.drop_first(),
        ),
        _ => step,
    }
}

/// The rooms that have a name, in order, each with its name.
pub open spec fn with_names(
    rooms: Seq<Room>,
    names: Seq<Result<DisplayName, ClientError>>,
) -> Seq<(Room, DisplayName)>
    decreases rooms.len(),
{
    if rooms.len() == 0 {
        Seq::empty()
    } else {
        add_named(Seq::empty(), rooms.first(), names.first()) + with_names(
            rooms.drop_first(),
            names.drop_first(),
        )
    }
}

proof fn lemma_answer_names(
    todo: Seq<Room>,
    named: Seq<(Room, DisplayName)>,
    names: Seq<Result<DisplayName, ClientError>>,
)
    requires
        names.len() == todo.len(),
    ensures
        answer_names(name_next(todo, named), names) == ListingStep::Done(
            named + with_names(todo, names),
        ),
    decreases todo.len(),
{
    if todo.len() == 0 {
        assert(named + with_names(todo, names) =~= named);
    } else {
        let more = add_named(named, todo.first(), names.first());
        lemma_answer_names(todo.drop_first(), more, names.drop_first());
        assert(more + with_names(todo.drop_first(), names.drop_first()) =~= named + with_names(
            todo,
            names,
        ));
    }
}

/// A listing asks every room that it has in it for its name, once and in order, and
/// comes to those that have one, in the same order.
pub proof fn law_listing(
    kind: Listing,
    rooms: Vec<Room>,
    names: Seq<Result<DisplayName, ClientError>>,
)
    requires
        names.len() == selected(kind, rooms@).len(),
    ensures
        answer_names(ListingState::Fetch(kind).next(Event::Rooms(rooms)), names)
            == ListingStep::Done(with_names(selected(kind, rooms@), names)),
{
    lemma_answer_names(selected(kind, rooms@), Seq::empty(), names);
    assert(Seq::<(Room, DisplayName)>::empty() + with_names(selected(kind, rooms@), names)
        =~= with_names(selected(kind, rooms@), names));
}

/// Every room is in exactly one of the three listings.
pub proof fn law_room_in_one_listing(room: Room)
    ensures
        selects(Listing::DirectMessages, room) || selects(Listing::JoinedRooms, room) || selects(
            Listing::Spaces,
            room,
        ),
        forall|a: Listing, b: Listing| selects(a, room) && selects(b, room) ==> a == b,
{
}

/// Three properties that split the items of a list between them split the list.
proof fn lemma_three_way_split<A>(
    items: Seq<A>,
    p: spec_fn(A) -> bool,
    q: spec_fn(A) -> bool,
    t: spec_fn(A) -> bool,
)
    requires
        forall|item: A|
            #![trigger p(item)]
            (p(item) && !q(item) && !t(item)) || (!p(item) && q(item) && !t(item)) || (!p(item)
                && !q(item) && t(item)),
    ensures
        items.filter(p).to_multiset().add(items.filter(q).to_multiset()).add(
            items.filter(t).to_multiset(),
        ) == items.to_multiset(),
    decreases items.len(),
{
    broadcast use vstd::seq_lib::group_to_multiset_ensures;

    reveal(Seq::filter);
    if items.len() == 0 {
        assert(items.filter(p) =~= items);
        assert(items.filter(q) =~= items);
        assert(items.filter(t) =~= items);
        assert(items.to_multiset() =~= Multiset::empty());
    } else {
        let front = items.drop_last();
        let last = items.last();
        lemma_three_way_split(front, p, q, t);
        assert(items =~= front.push(last));
        assert(p(last) || q(last) || t(last));
        assert(items.filter(p).to_multiset().add(items.filter(q).to_multiset()).add(
            items.filter(t).to_multiset(),
        ) =~= items.to_multiset());
    }
}

/// The three listings together have every joined room in them, as often as it was joined.
pub proof fn law_listings_partition(rooms: Seq<Room>)
    ensures
        selected(Listing::DirectMessages, rooms).to_multiset().add(
            selected(Listing::JoinedRooms, rooms).to_multiset(),
        ).add(selected(Listing::Spaces, rooms).to_multiset()) == rooms.to_multiset(),
{
    lemma_three_way_split(
        rooms,
        |room: Room| selects(Listing::DirectMessages, room),
        |room: Room| selects(Listing::JoinedRooms, room),
        |room: Room| selects(Listing::Spaces, room),
    );
}

/// What the rooms answer when they are asked for their names.
pub open spec fn answers_of(
    rooms: Seq<Room>,
    name: spec_fn(Room) -> Result<DisplayName, ClientError>,
) -> Seq<Result<DisplayName, ClientError>> {
    rooms.map_values(name)
}

/// What a listing of the joined rooms comes to, when each has this answer for whoever asks
/// for its name.
pub open spec fn listed(
    kind: Listing,
    rooms: Seq<Room>,
    name: spec_fn(Room) -> Result<DisplayName, ClientError>,
) -> Seq<(Room, DisplayName)> {
    with_names(selected(kind, rooms), answers_of(selected(kind, rooms), name))
}

/// The joined rooms that have a name, in order, each with its name.
pub open spec fn named_rooms(
    rooms: Seq<Room>,
    name: spec_fn(Room) -> Result<DisplayName, ClientError>,
) -> Seq<(Room, DisplayName)> {
    with_names(rooms, answers_of(rooms, name))
}

/// One more room at the end is one more in the list, if it has a name.
proof fn lemma_named_push(
    rooms: Seq<Room>,
    room: Room,
    name: spec_fn(Room) -> Result<DisplayName, ClientError>,
)
    ensures
        named_rooms(rooms.push(room), name) == add_named(
            named_rooms(rooms, name),
            room,
            name(room),
        ),
    decreases rooms.len(),
{
    let more = rooms.push(room);
    assert(answers_of(more, name).drop_first() =~= answers_of(more.drop_first(), name));
    if rooms.len() == 0 {
        assert(more.drop_first() =~= rooms);
        assert(named_rooms(rooms, name) =~= Seq::empty());
        assert(named_rooms(more, name) =~= add_named(Seq::empty(), room, name(room)));
    } else {
        lemma_named_push(rooms.drop_first(), room, name);
        assert(more.drop_first() =~= rooms.drop_first().push(room));
        assert(answers_of(rooms, name).drop_first() =~= answers_of(rooms.drop_first(), name));
        assert(named_rooms(more, name) =~= add_named(
            named_rooms(rooms, name),
            room,
            name(room),
        ));
    }
}

/// A listing comes to those of the joined rooms with a name that it selects, in the order of
/// the joined rooms.
pub proof fn law_listing_keeps_order(
    kind: Listing,
    rooms: Seq<Room>,
    name: spec_fn(Room) -> Result<DisplayName, ClientError>,
)
    ensures
        listed(kind, rooms, name) == named_rooms(rooms, name).filter(
            |room: (Room, DisplayName)| selects(kind, room.0),
        ),
    decreases rooms.len(),
{
    let p = |room: (Room, DisplayName)| selects(kind, room.0);
    reveal(Seq::filter);
    if rooms.len() == 0 {
        assert(named_rooms(rooms, name).filter(p) =~= Seq::empty());
        assert(selected(kind, rooms) =~= Seq::empty());
        assert(listed(kind, rooms, name) =~= Seq::empty());
    } else {
        let front = rooms.drop_last();
        let last = rooms.last();
        law_listing_keeps_order(kind, front, name);
        lemma_named_push(front, last, name);
        lemma_named_push(selected(kind, front), last, name);
        assert(rooms =~= front.push(last));
        let named = named_rooms(front, name);
        if let Ok(shown) = name(last) {
            assert(named.push((last, shown)).drop_last() =~= named);
        }
    }
}

/// The three listings, made while the joined rooms and their names stay the same, together
/// come to every joined room that has a name, as often as it was joined, and to no other.
pub proof fn law_listings_together(
    rooms: Seq<Room>,
    name: spec_fn(Room) -> Result<DisplayName, ClientError>,
)
    ensures
        listed(Listing::DirectMessages, rooms, name).to_multiset().add(
            listed(Listing::JoinedRooms, rooms, name).to_multiset(),
        ).add(listed(Listing::Spaces, rooms, name).to_multiset()) == named_rooms(
            rooms,
            name,
        ).to_multiset(),
{
    law_listing_keeps_order(Listing::DirectMessages, rooms, name);
    law_listing_keeps_order(Listing::JoinedRooms, rooms, name);
    law_listing_keeps_order(Listing::Spaces, rooms, name);
    lemma_three_way_split(
        named_rooms(rooms, name),
        |room: (Room, DisplayName)| selects(Listing::DirectMessages, room.0),
        |room: (Room, DisplayName)| selects(Listing::JoinedRooms, room.0),
        |room: (Room, DisplayName)| selects(Listing::Spaces, room.0),
    );
}

/// Two different listings have no room in common; in particular a space is in the listing of
/// spaces only, even one that is a direct chat.
pub proof fn law_listings_apart(
    a: Listing,
    b: Listing,
    rooms: Seq<Room>,
    name: spec_fn(Room) -> Result<DisplayName, ClientError>,
)
    requires
        a != b,
    ensures
        forall|i: int, j: int|
            0 <= i < listed(a, rooms, name).len() && 0 <= j < listed(b, rooms, name).len() ==> (
            #[trigger] listed(a, rooms, name)[i]).0 != (#[trigger] listed(b, rooms, name)[j]).0,
{
    broadcast use vstd::seq_lib::group_filter_ensures;

    law_listing_keeps_order(a, rooms, name);
    law_listing_keeps_order(b, rooms, name);
}

/// What a listing comes to while its rooms answer as they do is what the laws on all three
/// listings speak of.
pub proof fn law_listing_comes_to(
    kind: Listing,
    rooms: Vec<Room>,
    name: spec_fn(Room) -> Result<DisplayName, ClientError>,
)
    ensures
        answer_names(
            ListingState::Fetch(kind).next(Event::Rooms(rooms)),
            answers_of(selected(kind, rooms@), name),
        ) == ListingStep::Done(listed(kind, rooms@, name)),
{
    law_listing(kind, rooms, answers_of(selected(kind, rooms@), name));
}

/// The listing of direct chats selects just the rooms that are direct chats and not spaces,
/// that of joined rooms those that are neither, and that of spaces every space; each keeps the
/// rooms' order.
pub proof fn law_selection(rooms: Seq<Room>, room: Room)
    ensures
        selects(Listing::DirectMessages, room) <==> room.is_direct && !room.is_space,
        selects(Listing::JoinedRooms, room) <==> !room.is_direct && !room.is_space,
        selects(Listing::Spaces, room) <==> room.is_space,
        selected(Listing::DirectMessages, rooms) == rooms.filter(
            |room: Room| room.is_direct && !room.is_space,
        ),
        selected(Listing::JoinedRooms, rooms) == rooms.filter(
            |room: Room| !room.is_direct && !room.is_space,
        ),
        selected(Listing::Spaces, rooms) == rooms.filter(|room: Room| room.is_space),
{
    assert((|room: Room| selects(Listing::DirectMessages, room)) =~= (|room: Room|
        room.is_direct && !room.is_space));
    assert((|room: Room| selects(Listing::JoinedRooms, room)) =~= (|room: Room|
        !room.is_direct && !room.is_space));
    assert((|room: Room| selects(Listing::Spaces, room)) =~= (|room: Room| room.is_space));
}

/// The rooms that have told a name, in order, each with the name that it has told.
pub open spec fn that_told(
    rooms: Seq<Room>,
    names: Seq<Result<DisplayName, ClientError>>,
) -> Seq<(Room, DisplayName)> {
    rooms.zip_with(names).filter(
        |asked: (Room, Result<DisplayName, ClientError>)| asked.1 is Ok,
    ).map_values(|asked: (Room, Result<DisplayName, ClientError>)| (asked.0, asked.1->Ok_0))
}

/// One more room in front, whose answer is `name`.
proof fn lemma_told_front(
    rooms: Seq<Room>,
    names: Seq<Result<DisplayName, ClientError>>,
)
    requires
        rooms.len() > 0,
        names.len() == rooms.len(),
    ensures
        names.first() matches Ok(name) ==> that_told(rooms, names) == seq![(rooms.first(), name)]
            + that_told(rooms.drop_first(), names.drop_first()),
        names.first() is Err ==> that_told(rooms, names) == that_told(
            rooms.drop_first(),
            names.drop_first(),
        ),
{
    let p = |asked: (Room, Result<DisplayName, ClientError>)| asked.1 is Ok;
    let f = |asked: (Room, Result<DisplayName, ClientError>)| (asked.0, asked.1->Ok_0);
    let front = seq![(rooms.first(), names.first())];
    let rest = rooms.drop_first().zip_with(names.drop_first());
    assert(rooms.zip_with(names) =~= front + rest);
    Seq::filter_distributes_over_add(front, rest, p);
    reveal(Seq::filter);
    assert(front.drop_last() =~= Seq::empty());
    assert(front.drop_last().filter(p) =~= Seq::empty());
    assert(front.last() == (rooms.first(), names.first()));
    if let Ok(name) = names.first() {
        assert(front.filter(p) =~= front);
        assert(that_told(rooms, names) =~= seq![(rooms.first(), name)] + rest.filter(p).map_values(
            f,
        ));
    } else {
        assert(front.filter(p) =~= Seq::empty());
        assert(Seq::empty() + rest.filter(p) =~= rest.filter(p));
    }
}

/// Both ways to say which rooms are listed say the same.
pub proof fn lemma_with_names_told(rooms: Seq<Room>, names: Seq<Result<DisplayName, ClientError>>)
    requires
        names.len() == rooms.len(),
    ensures
        with_names(rooms, names) == that_told(rooms, names),
    decreases rooms.len(),
{
    if rooms.len() == 0 {
        reveal(Seq::filter);
        let p = |asked: (Room, Result<DisplayName, ClientError>)| asked.1 is Ok;
        assert(rooms.zip_with(names).filter(p) =~= Seq::empty());
        assert(that_told(rooms, names) =~= Seq::empty());
    } else {
        lemma_with_names_told(rooms.drop_first(), names.drop_first());
        lemma_told_front(rooms, names);
        assert(with_names(rooms, names) =~= that_told(rooms, names));
    }
}

proof fn lemma_told_all(rooms: Seq<Room>, names: Seq<Result<DisplayName, ClientError>>)
    requires
        names.len() == rooms.len(),
        forall|i: int| 0 <= i < names.len() ==> #[trigger] names[i] is Ok,
    ensures
        that_told(rooms, names).len() == rooms.len(),
        forall|i: int|
            0 <= i < rooms.len() ==> #[trigger] that_told(rooms, names)[i] == (
                rooms[i],
                names[i]->Ok_0,
            ),
    decreases rooms.len(),
{
    if rooms.len() == 0 {
        lemma_with_names_told(rooms, names);
    } else {
        let rest = names.drop_first();
        assert(names.first() == names[0]);
        assert forall|i: int| 0 <= i < rest.len() implies #[trigger] rest[i] is Ok by {
            assert(rest[i] == names[i + 1]);
        }
        lemma_told_all(rooms.drop_first(), rest);
        lemma_told_front(rooms, names);
        let told = that_told(rooms.drop_first(), rest);
        assert forall|i: int| 0 <= i < rooms.len() implies #[trigger] that_told(rooms, names)[i]
            == (rooms[i], names[i]->Ok_0) by {
            if i > 0 {
                assert(that_told(rooms, names)[i] == told[i - 1]);
            }
        }
    }
}

/// Room `i` was asked, and has told this name.
pub open spec fn has_told(
    rooms: Seq<Room>,
    names: Seq<Result<DisplayName, ClientError>>,
    i: int,
    room: Room,
    name: DisplayName,
) -> bool {
    0 <= i < rooms.len() && rooms[i] == room && names[i] == Ok::<DisplayName, ClientError>(name)
}

proof fn lemma_told_contains(
    rooms: Seq<Room>,
    names: Seq<Result<DisplayName, ClientError>>,
    room: Room,
    name: DisplayName,
)
    requires
        names.len() == rooms.len(),
    ensures
        that_told(rooms, names).contains((room, name)) <==> exists|i: int|
            has_told(rooms, names, i, room, name),
    decreases rooms.len(),
{
    let told = that_told(rooms, names);
    if rooms.len() == 0 {
        lemma_with_names_told(rooms, names);
    } else {
        let later = that_told(rooms.drop_first(), names.drop_first());
        lemma_told_contains(rooms.drop_first(), names.drop_first(), room, name);
        lemma_told_front(rooms, names);
        if told.contains((room, name)) {
            let k = choose|k: int| 0 <= k < told.len() && told[k] == (room, name);
            if names.first() is Ok && k == 0 {
                assert(has_told(rooms, names, 0, room, name));
            } else {
                let j = if names.first() is Ok {
                    k - 1
                } else {
                    k
                };
                assert(later[j] == (room, name));
                let i = choose|i: int|
                    has_told(rooms.drop_first(), names.drop_first(), i, room, name);
                assert(has_told(rooms, names, i + 1, room, name));
            }
        }
        if exists|i: int| has_told(rooms, names, i, room, name) {
            let i = choose|i: int| has_told(rooms, names, i, room, name);
            if i == 0 {
                assert(told[0] == (room, name));
            } else {
                assert(has_told(rooms.drop_first(), names.drop_first(), i - 1, room, name));
                let j = choose|j: int| 0 <= j < later.len() && later[j] == (room, name);
                if names.first() is Ok {
                    assert(told[j + 1] == (room, name));
                } else {
                    assert(told[j] == (room, name));
                }
            }
        }
    }
}

/// The rooms that a listing is of, told from their flags.
pub open spec fn rooms_of(kind: Listing, rooms: Seq<Room>) -> Seq<Room> {
    match kind {
        Listing::DirectMessages => rooms.filter(|room: Room| room.is_direct && !room.is_space),
        Listing::JoinedRooms => rooms.filter(|room: Room| !room.is_direct && !room.is_space),
        Listing::Spaces => rooms.filter(|room: Room| room.is_space),
    }
}

/// A listing comes to exactly those of its rooms whose answer is a name, of whichever kind,
/// each with the name that it has told, and in order; if every room tells one, no room is
/// missing.
pub proof fn law_listed_exactly(
    kind: Listing,
    rooms: Vec<Room>,
    names: Seq<Result<DisplayName, ClientError>>,
)
    requires
        names.len() == rooms_of(kind, rooms@).len(),
    ensures
        answer_names(ListingState::Fetch(kind).next(Event::Rooms(rooms)), names) matches Step::Done(
            list,
        ) && {
            &&& list == that_told(rooms_of(kind, rooms@), names)
            &&& forall|room: Room, name: DisplayName| #[trigger]
                list.contains((room, name)) <==> exists|i: int|
                    has_told(rooms_of(kind, rooms@), names, i, room, name)
            &&& (forall|i: int| 0 <= i < names.len() ==> #[trigger] names[i] is Ok) ==> list.len()
                == rooms_of(kind, rooms@).len() && forall|i: int|
                0 <= i < list.len() ==> #[trigger] list[i] == (
                    rooms_of(kind, rooms@)[i],
                    names[i]->Ok_0,
                )
        },
{
    let kept = rooms_of(kind, rooms@);
    law_selection(rooms@, arbitrary());
    assert(selected(kind, rooms@) == kept);
    law_listing(kind, rooms, names);
    lemma_with_names_told(kept, names);
    let list = that_told(kept, names);
    assert forall|room: Room, name: DisplayName| #[trigger]
        list.contains((room, name)) <==> exists|i: int|
            has_told(kept, names, i, room, name) by {
        lemma_told_contains(kept, names, room, name);
    }
    if forall|i: int| 0 <= i < names.len() ==> #[trigger] names[i] is Ok {
        lemma_told_all(kept, names);
    }
}

proof fn lemma_asked_next(
    todo: Seq<Room>,
    named: Seq<(Room, DisplayName)>,
    names: Seq<Result<DisplayName, ClientError>>,
)
    requires
        names.len() < todo.len(),
    ensures
        answer_names(name_next(todo, named), names) matches Step::Perform(_, action) && action
            == Action::DisplayName(todo[names.len() as int].room_id),
    decreases names.len(),
{
    if names.len() > 0 {
        lemma_asked_next(
            todo.drop_first(),
            add_named(named, todo.first(), names.first()),
            names.drop_first(),
        );
    }
}

/// After as many answers as there are in `names`, a listing asks the next of its rooms, and no
/// other, for its name.
pub proof fn law_listing_asks_next(
    kind: Listing,
    rooms: Vec<Room>,
    names: Seq<Result<DisplayName, ClientError>>,
)
    requires
        names.len() < rooms_of(kind, rooms@).len(),
    ensures
        answer_names(
            ListingState::Fetch(kind).next(Event::Rooms(rooms)),
            names,
        ) matches Step::Perform(_, action) && action == Action::DisplayName(
            rooms_of(kind, rooms@)[names.len() as int].room_id,
        ),
{
    law_selection(rooms@, arbitrary());
    lemma_asked_next(selected(kind, rooms@), Seq::empty(), names);
}

/// A step of a listing stands for itself: the action is the one that is asked for, and the
/// rooms are the ones that come back, all of them and no others.
pub proof fn law_listing_step(op: RoomListing, action: Action, rooms: Vec<(Room, DisplayName)>)
    ensures
        listing_step(Step::Perform(op, action)) == ListingStep::Perform(op@, action),
        listing_step(Step::Done(rooms)) == ListingStep::Done(rooms@),
{
}

} // verus!

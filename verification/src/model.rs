//! The room as a state machine over plain values: its slots, its count, what an input
//! does to them and what it sends to whom.

use crate::event::{Audience, InboundView, OutboundView};
use vstd::prelude::*;

verus! {

/// One place in a room's table of connections.
pub enum Slot {
    /// No connection holds the place.
    Vacant,
    /// A live connection that has not registered an identity.
    Anonymous,
    /// A live connection with its identity.
    Named(Seq<char>),
}

impl Slot {
    /// Whether a live connection holds the place.
    pub open spec fn is_live(self) -> bool {
        !(self is Vacant)
    }

    /// The identity of the connection in the place, if there is one and it has one.
    pub open spec fn identity(self) -> Option<Seq<char>> {
        match self {
            Slot::Named(name) => Some(name),
            _ => None,
        }
    }
}

/// An outbound event on its way to one connection.
pub struct DeliveryView {
    pub to: int,
    pub event: OutboundView,
}

/// What can happen to a room: a new connection arrives, or a connection sends an event.
pub enum Input {
    Connect,
    Event { from: int, event: InboundView },
}

/// Whether a join under `name` registers on a session whose identity slot is `identity`:
/// the slot has to be empty, and the name must not be.
pub open spec fn join_registers(identity: Option<Seq<char>>, name: Seq<char>) -> bool {
    identity is None && name.len() > 0
}

/// What a registering join emits once the count has gone up to `num_users`: the login
/// for the joiner, then the announcement for the others.
pub open spec fn join_events(num_users: int, name: Seq<char>) -> Seq<OutboundView> {
    seq![
        OutboundView::Login { num_users },
        OutboundView::UserJoined { num_users, username: name },
    ]
}

/// `event` addressed to each of `ids`, in their order.
pub open spec fn addressed(ids: Seq<int>, event: OutboundView) -> Seq<DeliveryView> {
    ids.map_values(|id: int| DeliveryView { to: id, event })
}

/// The most places that a room's table can have.
pub open spec fn capacity() -> int {
    isize::MAX as int
}

/// The test for a slot that holds a named connection.
pub open spec fn is_named() -> spec_fn(Slot) -> bool {
    |slot: Slot| slot is Named
}

/// How many of the slots hold a named connection.
pub open spec fn named_count(slots: Seq<Slot>) -> int {
    slots.filter(is_named()).len() as int
}

/// The lowest vacant place, or the length of the table if no place is vacant.
pub open spec fn first_vacant(slots: Seq<Slot>) -> int {
    match slots.index_of_first(Slot::Vacant) {
        Some(at) => at,
        None => slots.len() as int,
    }
}

/// The ids below `upto`, in rising order.
pub open spec fn ids_below(upto: int) -> Seq<int> {
    Seq::new(upto as nat, |id: int| id)
}

/// The test for a live connection other than `origin`.
pub open spec fn is_other(slots: Seq<Slot>, origin: int) -> spec_fn(int) -> bool {
    |id: int| 0 <= id < slots.len() && slots[id].is_live() && id != origin
}

/// The live connections below `upto` other than `origin`, in rising order.
pub open spec fn others_below(slots: Seq<Slot>, origin: int, upto: int) -> Seq<int> {
    ids_below(upto).filter(is_other(slots, origin))
}

/// A room as plain values: the table of connections and the presence count.
pub struct RoomView {
    pub slots: Seq<Slot>,
    pub users: int,
}

impl RoomView {
    /// The room before anything has happened: no connection, nobody counted.
    pub open spec fn empty() -> RoomView {
        RoomView { slots: Seq::empty(), users: 0 }
    }

    /// Whether `id` is a live connection of the room.
    pub open spec fn is_live(self, id: int) -> bool {
        0 <= id < self.slots.len() && self.slots[id].is_live()
    }

    /// The identity of connection `id`, if it is live and has one.
    pub open spec fn identity_of(self, id: int) -> Option<Seq<char>> {
        if self.is_live(id) {
            self.slots[id].identity()
        } else {
            None
        }
    }

    /// The presence count equals the number of named connections.
    pub open spec fn consistent(self) -> bool {
        self.users == named_count(self.slots)
    }

    /// No connection goes by an empty name.
    pub open spec fn named_properly(self) -> bool {
        forall|id: int|
            0 <= id < self.slots.len() && #[trigger] self.slots[id] is Named
                ==> self.slots[id]->0.len() > 0
    }

    /// The table is no longer than a table may be.
    pub open spec fn bounded(self) -> bool {
        self.slots.len() <= capacity()
    }

    /// Every live connection other than `origin`, in rising order.
    pub open spec fn others(self, origin: int) -> Seq<int> {
        others_below(self.slots, origin, self.slots.len() as int)
    }

    /// The delivery of `event` to its originator, which is made if the originator is
    /// live.
    pub open spec fn to_sender(self, origin: int, event: OutboundView) -> Seq<DeliveryView> {
        if self.is_live(origin) {
            seq![DeliveryView { to: origin, event }]
        } else {
            Seq::empty()
        }
    }

    /// The deliveries of `event` to every live connection other than `origin`.
    pub open spec fn to_others(self, origin: int, event: OutboundView) -> Seq<DeliveryView> {
        addressed(self.others(origin), event)
    }

    /// The deliveries of `event` to the audience that its kind names.
    pub open spec fn fan_out(self, origin: int, event: OutboundView) -> Seq<DeliveryView> {
        match event.audience() {
            Audience::Sender => self.to_sender(origin, event),
            Audience::Others => self.to_others(origin, event),
        }
    }

    /// The id that the next connection gets, unless the room is full.
    pub open spec fn connect_id(self) -> Option<int> {
        let id = first_vacant(self.slots);
        if id < self.slots.len() || self.slots.len() < capacity() {
            Some(id)
        } else {
            None
        }
    }

    /// The room after a connection has arrived: it sits, anonymous, in the lowest vacant
    /// place. A full room stays as it is.
    pub open spec fn connect(self) -> RoomView {
        let id = first_vacant(self.slots);
        if id < self.slots.len() {
            RoomView { slots: self.slots.update(id, Slot::Anonymous), users: self.users }
        } else if self.slots.len() < capacity() {
            RoomView { slots: self.slots.push(Slot::Anonymous), users: self.users }
        } else {
            self
        }
    }

    /// Whether `"add user"` with `name` from connection `from` registers: the connection
    /// is live and anonymous and the name is not empty.
    pub open spec fn registers(self, from: int, name: Seq<char>) -> bool {
        self.is_live(from) && self.slots[from] is Anonymous && name.len() > 0
    }

    /// The room after connection `from` has sent `event`.
    pub open spec fn step(self, from: int, event: InboundView) -> RoomView {
        match event {
            InboundView::AddUser(name) => if self.registers(from, name) {
                RoomView {
                    slots: self.slots.update(from, Slot::Named(name)),
                    users: self.users + 1,
                }
            } else {
                self
            },
            InboundView::Disconnect => if self.is_live(from) {
                RoomView {
                    slots: self.slots.update(from, Slot::Vacant),
                    users: if self.slots[from] is Named {
                        self.users - 1
                    } else {
                        self.users
                    },
                }
            } else {
                self
            },
            _ => self,
        }
    }

    /// What the session of connection `from` emits when the connection sends `event`.
    pub open spec fn emitted(self, from: int, event: InboundView) -> Seq<OutboundView> {
        if !self.is_live(from) {
            Seq::empty()
        } else {
            match event {
                InboundView::AddUser(name) => if self.registers(from, name) {
                    join_events(self.users + 1, name)
                } else {
                    Seq::empty()
                },
                InboundView::NewMessage(text) => seq![
                    OutboundView::NewMessage { username: self.identity_of(from), message: text },
                ],
                InboundView::Typing => seq![
                    OutboundView::Typing { username: self.identity_of(from) },
                ],
                InboundView::StopTyping => seq![
                    OutboundView::StopTyping { username: self.identity_of(from) },
                ],
                InboundView::Disconnect => match self.slots[from] {
                    Slot::Named(name) => seq![
                        OutboundView::UserLeft { num_users: self.users - 1, username: name },
                    ],
                    _ => Seq::empty(),
                },
            }
        }
    }

    /// The deliveries of each of `events` to its audience, in the order of the events.
    pub open spec fn fan_out_all(self, origin: int, events: Seq<OutboundView>) -> Seq<
        DeliveryView,
    >
        decreases events.len(),
    {
        if events.len() == 0 {
            Seq::empty()
        } else {
            self.fan_out_all(origin, events.drop_last()) + self.fan_out(origin, events.last())
        }
    }

    /// What the room sends, and to whom, when connection `from` sends `event`: what the
    /// session emits, fanned out over the connections that are live once the event has
    /// been handled.
    pub open spec fn deliveries(self, from: int, event: InboundView) -> Seq<DeliveryView> {
        self.step(from, event).fan_out_all(from, self.emitted(from, event))
    }

    /// The room after one input.
    pub open spec fn apply(self, input: Input) -> RoomView {
        match input {
            Input::Connect => self.connect(),
            Input::Event { from, event } => self.step(from, event),
        }
    }

    /// The room after a sequence of inputs, first to last.
    pub open spec fn run(self, inputs: Seq<Input>) -> RoomView
        decreases inputs.len(),
    {
        if inputs.len() == 0 {
            self
        } else {
            self.run(inputs.drop_last()).apply(inputs.last())
        }
    }
}

/// No more slots are named than there are slots.
pub proof fn lemma_named_count_bounds(slots: Seq<Slot>)
    ensures
        0 <= named_count(slots) <= slots.len(),
{
    slots.lemma_filter_len(is_named());
}

/// A new slot at the end adds to the number of named slots if it is named.
pub proof fn lemma_named_count_push(slots: Seq<Slot>, slot: Slot)
    ensures
        named_count(slots.push(slot)) == named_count(slots) + (if slot is Named {
            1int
        } else {
            0int
        }),
{
    slots.lemma_filter_push(slot, is_named());
}

/// Putting `slot` in place `at` changes the number of named slots by what the place
/// held and what it holds now.
pub proof fn lemma_named_count_update(slots: Seq<Slot>, at: int, slot: Slot)
    requires
        0 <= at < slots.len(),
    ensures
        named_count(slots.update(at, slot)) == named_count(slots) - (if slots[at] is Named {
            1int
        } else {
            0int
        }) + (if slot is Named {
            1int
        } else {
            0int
        }),
    decreases slots.len(),
{
    let before = slots.drop_last();
    assert(slots =~= before.push(slots.last()));
    lemma_named_count_push(before, slots.last());
    if at == slots.len() - 1 {
        assert(slots.update(at, slot) =~= before.push(slot));
        lemma_named_count_push(before, slot);
    } else {
        lemma_named_count_update(before, at, slot);
        assert(slots.update(at, slot) =~= before.update(at, slot).push(slots.last()));
        lemma_named_count_push(before.update(at, slot), slots.last());
    }
}

/// A table with a slot that is not named has fewer named slots than slots.
pub proof fn lemma_named_count_room(slots: Seq<Slot>, at: int)
    requires
        0 <= at < slots.len(),
        !(slots[at] is Named),
    ensures
        named_count(slots) < slots.len(),
{
    lemma_named_count_update(slots, at, Slot::Named(Seq::empty()));
    lemma_named_count_bounds(slots.update(at, Slot::Named(Seq::empty())));
}

/// The lowest vacant place is vacant, and no place below it is.
pub proof fn lemma_first_vacant(slots: Seq<Slot>)
    ensures
        0 <= first_vacant(slots) <= slots.len(),
        first_vacant(slots) < slots.len() ==> slots[first_vacant(slots)] is Vacant,
        forall|i: int| 0 <= i < first_vacant(slots) ==> !(#[trigger] slots[i] is Vacant),
{
    slots.index_of_first_ensures(Slot::Vacant);
    assert forall|i: int| 0 <= i < first_vacant(slots) implies !(#[trigger] slots[i] is Vacant) by {
        if slots[i] is Vacant {
            assert(slots[i] == Slot::Vacant);
            assert(slots.contains(Slot::Vacant));
        }
    }
}

/// A place that is vacant, or the table's end, with no vacant place below it is the
/// lowest vacant place.
pub proof fn lemma_first_vacant_found(slots: Seq<Slot>, at: int)
    requires
        0 <= at <= slots.len(),
        at < slots.len() ==> slots[at] is Vacant,
        forall|i: int| 0 <= i < at ==> !(#[trigger] slots[i] is Vacant),
    ensures
        first_vacant(slots) == at,
{
    lemma_first_vacant(slots);
}

/// One id further up, the others are the same, with that id added if it is one of them.
pub proof fn lemma_others_below_next(slots: Seq<Slot>, origin: int, upto: int)
    requires
        0 <= upto,
    ensures
        others_below(slots, origin, upto + 1) == if is_other(slots, origin)(upto) {
            others_below(slots, origin, upto).push(upto)
        } else {
            others_below(slots, origin, upto)
        },
        others_below(slots, origin, 0) == Seq::<int>::empty(),
{
    assert(ids_below(upto + 1) =~= ids_below(upto).push(upto));
    ids_below(upto).lemma_filter_push(upto, is_other(slots, origin));
    ids_below(0).lemma_filter_len(is_other(slots, origin));
    assert(others_below(slots, origin, 0) =~= Seq::<int>::empty());
}

/// What `others_below` holds: the live connections below `upto` other than `origin`,
/// each once, in rising order.
pub proof fn lemma_others_below(slots: Seq<Slot>, origin: int, upto: int)
    requires
        0 <= upto <= slots.len(),
    ensures
        others_below(slots, origin, upto).len() <= upto,
        forall|k: int|
            0 <= k < others_below(slots, origin, upto).len() ==> {
                let id = #[trigger] others_below(slots, origin, upto)[k];
                0 <= id < upto && slots[id].is_live() && id != origin
            },
        forall|j: int, k: int|
            0 <= j < k < others_below(slots, origin, upto).len() ==> others_below(
                slots,
                origin,
                upto,
            )[j] < others_below(slots, origin, upto)[k],
        forall|id: int|
            0 <= id < upto && slots[id].is_live() && id != origin ==> others_below(
                slots,
                origin,
                upto,
            ).contains(id),
    decreases upto,
{
    if upto > 0 {
        lemma_others_below(slots, origin, upto - 1);
        lemma_others_below_next(slots, origin, upto - 1);
        let rest = others_below(slots, origin, upto - 1);
        let all = others_below(slots, origin, upto);
        assert forall|id: int|
            0 <= id < upto && slots[id].is_live() && id != origin implies all.contains(id) by {
            if id < upto - 1 {
                assert(rest.contains(id));
                let k = choose|k: int| 0 <= k < rest.len() && rest[k] == id;
                assert(all[k] == id);
            } else {
                assert(all[all.len() - 1] == id);
            }
        }
    }
}

/// Who the others are depends only on which places other than the originator's are
/// live.
pub proof fn lemma_others_below_same_liveness(
    slots: Seq<Slot>,
    other: Seq<Slot>,
    origin: int,
    upto: int,
)
    requires
        0 <= upto <= slots.len() == other.len(),
        forall|i: int|
            0 <= i < slots.len() && i != origin ==> slots[i].is_live() == other[i].is_live(),
    ensures
        others_below(slots, origin, upto) == others_below(other, origin, upto),
    decreases upto,
{
    if upto > 0 {
        lemma_others_below_same_liveness(slots, other, origin, upto - 1);
        lemma_others_below_next(slots, origin, upto - 1);
        lemma_others_below_next(other, origin, upto - 1);
    }
}

/// Fanning out does not depend on the count, nor on what the connections are called:
/// only on which places are live, and, where every event is for the others, not on
/// the originator's own place either.
pub proof fn lemma_fan_out_all_same_liveness(
    room: RoomView,
    other: RoomView,
    origin: int,
    events: Seq<OutboundView>,
)
    requires
        room.slots.len() == other.slots.len(),
        forall|i: int|
            0 <= i < room.slots.len() && i != origin ==> room.slots[i].is_live()
                == other.slots[i].is_live(),
        room.is_live(origin) == other.is_live(origin) || forall|k: int|
            0 <= k < events.len() ==> (#[trigger] events[k]).audience() is Others,
    ensures
        room.fan_out_all(origin, events) == other.fan_out_all(origin, events),
    decreases events.len(),
{
    if events.len() > 0 {
        lemma_fan_out_all_same_liveness(room, other, origin, events.drop_last());
        lemma_others_below_same_liveness(
            room.slots,
            other.slots,
            origin,
            room.slots.len() as int,
        );
    }
}

/// Fanning out no event delivers nothing.
pub proof fn lemma_fan_out_none(room: RoomView, origin: int)
    ensures
        room.fan_out_all(origin, Seq::empty()) == Seq::<DeliveryView>::empty(),
{
}

/// Fanning out one event is fanning it out to its audience.
pub proof fn lemma_fan_out_one(room: RoomView, origin: int, event: OutboundView)
    ensures
        room.fan_out_all(origin, seq![event]) == room.fan_out(origin, event),
{
    assert(seq![event].drop_last() =~= Seq::<OutboundView>::empty());
    lemma_fan_out_none(room, origin);
    assert(room.fan_out_all(origin, seq![event]) =~= room.fan_out(origin, event));
}

/// Fanning out two events is fanning out the first, then the second.
pub proof fn lemma_fan_out_two(
    room: RoomView,
    origin: int,
    first: OutboundView,
    second: OutboundView,
)
    ensures
        room.fan_out_all(origin, seq![first, second]) == room.fan_out(origin, first)
            + room.fan_out(origin, second),
{
    assert(seq![first, second].drop_last() =~= seq![first]);
    lemma_fan_out_one(room, origin, first);
}

} // verus!

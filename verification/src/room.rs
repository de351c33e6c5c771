//! The room: the table of live connections, the presence count that they share, and
//! the fan-out of what they emit.

use crate::event::{Audience, Inbound, Outbound};
use crate::identity::Username;
use crate::model::{
    addressed, first_vacant, lemma_first_vacant, lemma_first_vacant_found,
    lemma_named_count_bounds, lemma_named_count_push, lemma_named_count_room,
    lemma_named_count_update, lemma_others_below_next, named_count, others_below, DeliveryView,
    RoomView, Slot,
};
use crate::presence::UserCnt;
use crate::session::{outbound_views, Session};
use vstd::prelude::*;

verus! {

/// An outbound event on its way to one connection.
#[derive(Debug, PartialEq, Eq)]
pub struct Delivery {
    /// The connection that receives the event.
    pub to: usize,
    /// The event.
    pub event: Outbound,
}

impl View for Delivery {
    type V = DeliveryView;

    open spec fn view(&self) -> DeliveryView {
        DeliveryView { to: self.to as int, event: self.event@ }
    }
}

/// The views of a list of deliveries, in order.
pub open spec fn delivery_views(deliveries: Seq<Delivery>) -> Seq<DeliveryView> {
    deliveries.map_values(|delivery: Delivery| delivery@)
}

/// What a place of the table holds, as the model sees it.
pub open spec fn slot_of(entry: Option<Session>) -> Slot {
    match entry {
        None => Slot::Vacant,
        Some(session) => match session@ {
            None => Slot::Anonymous,
            Some(name) => Slot::Named(name),
        },
    }
}

/// The model's table for a table of sessions.
pub open spec fn slots_of(entries: Seq<Option<Session>>) -> Seq<Slot> {
    entries.map_values(|entry: Option<Session>| slot_of(entry))
}

/// A room of connections that can reach one another.
///
/// A connection is known by the number of its place in the room's table. The number
/// is its own from `connect` until its disconnect; after that a later connection may
/// get it.
#[derive(Debug)]
pub struct Room {
    slots: Vec<Option<Session>>,
    users: UserCnt,
}

impl View for Room {
    type V = RoomView;

    closed spec fn view(&self) -> RoomView {
        RoomView { slots: slots_of(self.slots@), users: self.users@ }
    }
}

impl Room {
    /// What holds of every room: the presence count is the number of named
    /// connections, no connection goes by an empty name, and the table is no longer
    /// than a table may be.
    pub open spec fn wf(&self) -> bool {
        self@.consistent() && self@.named_properly() && self@.bounded()
    }

    /// A room without connections.
    pub fn new() -> (room: Self)
        ensures
            room@ == RoomView::empty(),
            room.wf(),
    {
        let room = Room { slots: Vec::new(), users: UserCnt::new() };
        assert(room@.slots =~= Seq::empty());
        room
    }

    /// The presence count, which is the number of named connections.
    pub fn num_users(&self) -> (num_users: isize)
        requires
            self.wf(),
        ensures
            num_users == self@.users,
            num_users == named_count(self@.slots),
    {
        self.users.current()
    }

    /// Whether `id` is a live connection of the room.
    pub fn is_live(&self, id: usize) -> (live: bool)
        ensures
            live == self@.is_live(id as int),
    {
        id < self.slots.len() && self.slots[id].is_some()
    }

    /// The lowest vacant place of the table, or its length if no place is vacant.
    fn lowest_vacant(&self) -> (at: usize)
        ensures
            at == first_vacant(self@.slots),
            at <= self.slots@.len(),
    {
        let mut at: usize = 0;
        while at < self.slots.len() && self.slots[at].is_some()
            invariant
                at <= self.slots@.len(),
                forall|i: int| 0 <= i < at ==> !(#[trigger] self@.slots[i] is Vacant),
            decreases self.slots@.len() - at,
        {
            at = at + 1;
        }
        proof {
            lemma_first_vacant_found(self@.slots, at as int);
        }
        at
    }

    /// Takes a new connection into the room and returns its id, unless the room is full.
    ///
    /// The connection gets the lowest vacant place of the table and a session of its
    /// own, which is anonymous.
    pub fn connect(&mut self) -> (id: Option<usize>)
        requires
            old(self).wf(),
        ensures
            final(self).wf(),
            final(self)@ == old(self)@.connect(),
            match id {
                Some(id) => old(self)@.connect_id() == Some(id as int),
                None => old(self)@.connect_id() is None,
            },
    {
        let at = self.lowest_vacant();
        proof {
            lemma_first_vacant(self@.slots);
        }
        if at < self.slots.len() {
            proof {
                lemma_named_count_update(self@.slots, at as int, Slot::Anonymous);
            }
            self.slots[at] = Some(Session::new());
            assert(self@.slots =~= old(self)@.slots.update(at as int, Slot::Anonymous));
            Some(at)
        } else if self.slots.len() < isize::MAX as usize {
            proof {
                lemma_named_count_push(self@.slots, Slot::Anonymous);
            }
            self.slots.push(Some(Session::new()));
            assert(self@.slots =~= old(self)@.slots.push(Slot::Anonymous));
            Some(at)
        } else {
            None
        }
    }

    /// The identity of connection `id`, if it is live and has one.
    pub fn identity_of(&self, id: usize) -> (identity: Option<&Username>)
        ensures
            identity is Some <==> self@.identity_of(id as int) is Some,
            identity is Some ==> self@.identity_of(id as int) == Some(identity->0@),
            identity is Some ==> identity->0@.len() > 0,
    {
        if id < self.slots.len() {
            match &self.slots[id] {
                Some(session) => session.get_identity(),
                None => None,
            }
        } else {
            None
        }
    }

    /// Runs the handler of `event` on the session of connection `from`, and returns
    /// what the session emits. An event from a connection that is not live does nothing.
    fn handle(&mut self, from: usize, event: Inbound) -> (emitted: Vec<Outbound>)
        requires
            old(self).wf(),
        ensures
            final(self).wf(),
            final(self)@ == old(self)@.step(from as int, event@),
            outbound_views(emitted@) == old(self)@.emitted(from as int, event@),
    {
        if !self.is_live(from) {
            return Vec::new();
        }
        match event {
            Inbound::AddUser(name) => {
                proof {
                    if self@.slots[from as int] is Anonymous {
                        lemma_named_count_room(self@.slots, from as int);
                    }
                }
                let emitted = match &mut self.slots[from] {
                    Some(session) => session.join(&mut self.users, name),
                    None => Vec::new(),
                };
                proof {
                    lemma_named_count_update(old(self)@.slots, from as int, self@.slots[from as int]);
                    assert(self@.slots =~= old(self)@.slots.update(
                        from as int,
                        self@.slots[from as int],
                    ));
                    if !old(self)@.registers(from as int, name@) {
                        assert(self@.slots =~= old(self)@.slots);
                    }
                }
                emitted
            },
            Inbound::NewMessage(text) => {
                let mut emitted: Vec<Outbound> = Vec::new();
                match &self.slots[from] {
                    Some(session) => emitted.push(session.chat_message(text)),
                    None => {},
                }
                assert(outbound_views(emitted@) =~= old(self)@.emitted(from as int, event@));
                emitted
            },
            Inbound::Typing => {
                let mut emitted: Vec<Outbound> = Vec::new();
                match &self.slots[from] {
                    Some(session) => emitted.push(session.typing_start()),
                    None => {},
                }
                assert(outbound_views(emitted@) =~= old(self)@.emitted(from as int, event@));
                emitted
            },
            Inbound::StopTyping => {
                let mut emitted: Vec<Outbound> = Vec::new();
                match &self.slots[from] {
                    Some(session) => emitted.push(session.typing_stop()),
                    None => {},
                }
                assert(outbound_views(emitted@) =~= old(self)@.emitted(from as int, event@));
                emitted
            },
            Inbound::Disconnect => {
                let mut emitted: Vec<Outbound> = Vec::new();
                proof {
                    lemma_named_count_bounds(self@.slots);
                    lemma_named_count_update(self@.slots, from as int, Slot::Vacant);
                }
                let entry = self.slots[from].take();
                assert(self@.slots =~= old(self)@.slots.update(from as int, Slot::Vacant));
                match entry {
                    Some(session) => match session.disconnect(&mut self.users) {
                        Some(left) => emitted.push(left),
                        None => {},
                    },
                    None => {},
                }
                assert(outbound_views(emitted@) =~= old(self)@.emitted(from as int, event@));
                emitted
            },
        }
    }

    /// Takes `event` from connection `from`: runs its handler and fans out what the
    /// handler emits. An event from a connection that is not live does nothing and
    /// sends nothing.
    pub fn dispatch(&mut self, from: usize, event: Inbound) -> (sent: Vec<Delivery>)
        requires
            old(self).wf(),
        ensures
            final(self).wf(),
            final(self)@ == old(self)@.step(from as int, event@),
            delivery_views(sent@) == old(self)@.deliveries(from as int, event@),
    {
        let emitted = self.handle(from, event);
        self.emit_all(from, emitted)
    }

    /// Delivers `event` to its originator, and to nobody else. An originator that is
    /// not live gets nothing.
    pub fn emit_self(&self, origin: usize, event: Outbound) -> (sent: Vec<Delivery>)
        ensures
            delivery_views(sent@) == self@.to_sender(origin as int, event@),
    {
        let mut sent: Vec<Delivery> = Vec::new();
        if self.is_live(origin) {
            sent.push(Delivery { to: origin, event });
        }
        assert(delivery_views(sent@) =~= self@.to_sender(origin as int, event@));
        sent
    }

    /// Delivers `event` to every connection that is live at this moment, but for its
    /// originator, lowest id first.
    pub fn emit_others(&self, origin: usize, event: Outbound) -> (sent: Vec<Delivery>)
        ensures
            delivery_views(sent@) == self@.to_others(origin as int, event@),
    {
        let mut sent: Vec<Delivery> = Vec::new();
        let mut at: usize = 0;
        proof {
            lemma_others_below_next(self@.slots, origin as int, 0);
        }
        while at < self.slots.len()
            invariant
                at <= self.slots@.len(),
                delivery_views(sent@) =~= addressed(
                    others_below(self@.slots, origin as int, at as int),
                    event@,
                ),
            decreases self.slots@.len() - at,
        {
            let ghost before = delivery_views(sent@);
            let ghost below = others_below(self@.slots, origin as int, at as int);
            proof {
                lemma_others_below_next(self@.slots, origin as int, at as int);
            }
            if at != origin && self.slots[at].is_some() {
                let delivery = Delivery { to: at, event: event.clone() };
                sent.push(delivery);
                assert(delivery_views(sent@) =~= before.push(delivery@));
                assert(addressed(below.push(at as int), event@) =~= addressed(below, event@).push(
                    delivery@,
                ));
            }
            at = at + 1;
        }
        sent
    }

    /// Delivers `event` to the audience that its kind names.
    pub fn emit(&self, origin: usize, event: Outbound) -> (sent: Vec<Delivery>)
        ensures
            delivery_views(sent@) == self@.fan_out(origin as int, event@),
    {
        match event.audience() {
            Audience::Sender => self.emit_self(origin, event),
            Audience::Others => self.emit_others(origin, event),
        }
    }

    /// Delivers each of `events` to its audience, in the order of the events.
    pub fn emit_all(&self, origin: usize, events: Vec<Outbound>) -> (sent: Vec<Delivery>)
        ensures
            delivery_views(sent@) == self@.fan_out_all(origin as int, outbound_views(events@)),
    {
        let mut sent: Vec<Delivery> = Vec::new();
        let ghost all = outbound_views(events@);
        for event in iter: events
            invariant
                outbound_views(iter.seq()) == all,
                delivery_views(sent@) == self@.fan_out_all(
                    origin as int,
                    all.take(iter.index() as int),
                ),
        {
            let ghost before = delivery_views(sent@);
            let ghost done = all.take(iter.index() as int);
            let mut batch = self.emit(origin, event);
            let ghost added = delivery_views(batch@);
            sent.append(&mut batch);
            assert(delivery_views(sent@) =~= before + added);
            assert(all.take(iter.index() + 1).drop_last() =~= done);
            assert(all.take(iter.index() + 1).last() == event@);
        }
        assert(all.take(all.len() as int) =~= all);
        sent
    }
}

} // verus!

//! What holds of every room, whatever happens to it.

use crate::event::{Audience, InboundView, OutboundView};
use crate::model::{
    addressed, first_vacant, lemma_fan_out_all_same_liveness, lemma_fan_out_none,
    lemma_fan_out_one, lemma_fan_out_two, lemma_first_vacant, lemma_named_count_bounds,
    lemma_named_count_push, lemma_named_count_update, lemma_others_below, named_count,
    DeliveryView, Input, RoomView, Slot,
};
use vstd::prelude::*;

verus! {

/// Whether delivery `delivery`, caused by connection `origin`, went where the kind of
/// its event says: a sender's event to the originator, an event for the others to a
/// connection that is not the originator; and either way to a live connection.
pub open spec fn respects_audience(room: RoomView, origin: int, delivery: DeliveryView) -> bool {
    &&& room.is_live(delivery.to)
    &&& match delivery.event.audience() {
        Audience::Sender => delivery.to == origin,
        Audience::Others => delivery.to != origin,
    }
}

/// A payload has a user count exactly when its event reports a join or a leave, a
/// message text exactly when its event is a chat message, and a field for the sender's
/// name in every event but the login.
pub proof fn law_payload_fields(event: OutboundView)
    ensures
        event.payload().has_count() <==> event.reports_presence(),
        event.payload().has_message() <==> event is NewMessage,
        event.payload().has_username() <==> !(event is Login),
{
}

/// One input keeps the presence count equal to the number of named connections, every
/// name non-empty, and the table within its bound.
pub proof fn law_input_keeps_count(room: RoomView, input: Input)
    requires
        room.consistent(),
    ensures
        room.apply(input).consistent(),
        room.named_properly() ==> room.apply(input).named_properly(),
        room.bounded() ==> room.apply(input).bounded(),
{
    match input {
        Input::Connect => {
            let at = first_vacant(room.slots);
            lemma_first_vacant(room.slots);
            if at < room.slots.len() {
                lemma_named_count_update(room.slots, at, Slot::Anonymous);
            } else {
                lemma_named_count_push(room.slots, Slot::Anonymous);
            }
        },
        Input::Event { from, event } => {
            match event {
                InboundView::AddUser(name) => {
                    if room.registers(from, name) {
                        lemma_named_count_update(room.slots, from, Slot::Named(name));
                    }
                },
                InboundView::Disconnect => {
                    if room.is_live(from) {
                        lemma_named_count_update(room.slots, from, Slot::Vacant);
                    }
                },
                _ => {},
            }
        },
    }
}

/// Whatever sequence of arrivals, joins, messages, typing notices and disconnects a
/// room goes through, in whatever order the connections' inputs interleave, its
/// presence count afterwards equals the number of connections that are named then. In
/// particular the count is never negative and never more than the table is long.
pub proof fn law_count_is_named_connections(room: RoomView, inputs: Seq<Input>)
    requires
        room.consistent(),
    ensures
        room.run(inputs).consistent(),
        room.run(inputs).users == named_count(room.run(inputs).slots),
        0 <= room.run(inputs).users <= room.run(inputs).slots.len(),
        room.named_properly() ==> room.run(inputs).named_properly(),
        room.bounded() ==> room.run(inputs).bounded(),
    decreases inputs.len(),
{
    if inputs.len() > 0 {
        law_count_is_named_connections(room, inputs.drop_last());
        law_input_keeps_count(room.run(inputs.drop_last()), inputs.last());
    }
    lemma_named_count_bounds(room.run(inputs).slots);
}

/// The same of a room that starts out empty, where moreover no connection ever goes by
/// an empty name.
pub proof fn law_count_from_empty(inputs: Seq<Input>)
    ensures
        RoomView::empty().run(inputs).users == named_count(RoomView::empty().run(inputs).slots),
        RoomView::empty().run(inputs).named_properly(),
        RoomView::empty().run(inputs).bounded(),
{
    law_count_is_named_connections(RoomView::empty(), inputs);
}

/// A connection that arrives gets a place that no live connection holds and a session
/// of its own, which is anonymous. The arrival changes no other place and not the count.
pub proof fn law_connect_gives_fresh_session(room: RoomView)
    requires
        room.connect_id() is Some,
    ensures
        ({
            let id = room.connect_id()->0;
            &&& !room.is_live(id)
            &&& room.connect().is_live(id)
            &&& room.connect().slots[id] is Anonymous
            &&& room.connect().users == room.users
            &&& forall|other: int|
                0 <= other < room.slots.len() && other != id ==> room.connect().slots[other]
                    == room.slots[other]
        }),
{
    lemma_first_vacant(room.slots);
}

/// An event changes no session but its sender's, and moves no connection to another
/// place.
pub proof fn law_event_touches_its_sender_only(room: RoomView, from: int, event: InboundView)
    ensures
        room.step(from, event).slots.len() == room.slots.len(),
        forall|other: int|
            0 <= other < room.slots.len() && other != from ==> room.step(from, event).slots[other]
                == room.slots[other],
{
}

/// What a room sends on an event could as well be fanned out over the connections
/// that were live before the event: the only place that an event changes is its
/// sender's, and the sender is no recipient among the others.
pub proof fn law_deliveries_over_arrival(room: RoomView, from: int, event: InboundView)
    ensures
        room.deliveries(from, event) == room.fan_out_all(from, room.emitted(from, event)),
{
    law_event_touches_its_sender_only(room, from, event);
    lemma_fan_out_all_same_liveness(
        room.step(from, event),
        room,
        from,
        room.emitted(from, event),
    );
}

/// A connection that sends `"add user"` twice in a row is counted once and announced
/// once: after the first, with a name that is not empty, the second changes nothing
/// and sends nothing, whatever name it brings.
pub proof fn law_second_join_does_nothing(
    room: RoomView,
    from: int,
    first: Seq<char>,
    second: Seq<char>,
)
    requires
        room.is_live(from),
        first.len() > 0,
    ensures
        ({
            let joined = room.step(from, InboundView::AddUser(first));
            &&& joined.step(from, InboundView::AddUser(second)) == joined
            &&& joined.emitted(from, InboundView::AddUser(second)).len() == 0
            &&& joined.deliveries(from, InboundView::AddUser(second)).len() == 0
            &&& joined.users == room.users + (if room.slots[from] is Anonymous {
                1int
            } else {
                0int
            })
        }),
{
    let joined = room.step(from, InboundView::AddUser(first));
    assert(!(joined.slots[from] is Anonymous));
    assert(joined.emitted(from, InboundView::AddUser(second)) =~= Seq::empty());
    lemma_fan_out_none(joined, from);
}

/// A join on a connection that is named already changes nothing and sends nothing.
pub proof fn law_join_of_named_does_nothing(room: RoomView, from: int, name: Seq<char>)
    requires
        room.is_live(from),
        room.slots[from] is Named,
    ensures
        room.step(from, InboundView::AddUser(name)) == room,
        room.deliveries(from, InboundView::AddUser(name)).len() == 0,
{
    assert(room.emitted(from, InboundView::AddUser(name)) =~= Seq::empty());
    lemma_fan_out_none(room, from);
}

/// A registering join sends the login to the joiner alone, then the announcement to
/// each of the others once, both with the count after the join.
pub proof fn law_join_deliveries(room: RoomView, from: int, name: Seq<char>)
    requires
        room.registers(from, name),
    ensures
        room.step(from, InboundView::AddUser(name)).users == room.users + 1,
        room.deliveries(from, InboundView::AddUser(name)) == seq![
            DeliveryView { to: from, event: OutboundView::Login { num_users: room.users + 1 } },
        ] + addressed(
            room.others(from),
            OutboundView::UserJoined { num_users: room.users + 1, username: name },
        ),
{
    law_deliveries_over_arrival(room, from, InboundView::AddUser(name));
    lemma_fan_out_two(
        room,
        from,
        OutboundView::Login { num_users: room.users + 1 },
        OutboundView::UserJoined { num_users: room.users + 1, username: name },
    );
}

/// A connection that disconnects without having joined is not taken off the count,
/// and nobody is told that it left.
pub proof fn law_anonymous_disconnect_is_silent(room: RoomView, from: int)
    requires
        !(room.is_live(from) && room.slots[from] is Named),
    ensures
        room.step(from, InboundView::Disconnect).users == room.users,
        room.deliveries(from, InboundView::Disconnect).len() == 0,
{
    assert(room.emitted(from, InboundView::Disconnect) =~= Seq::empty());
    lemma_fan_out_none(room.step(from, InboundView::Disconnect), from);
}

/// A named connection that disconnects is taken off the count, and each of the others
/// is told once, with the count after the leave.
pub proof fn law_named_disconnect_deliveries(room: RoomView, from: int)
    requires
        room.is_live(from),
        room.slots[from] is Named,
    ensures
        room.step(from, InboundView::Disconnect).users == room.users - 1,
        !room.step(from, InboundView::Disconnect).is_live(from),
        room.deliveries(from, InboundView::Disconnect) == addressed(
            room.others(from),
            OutboundView::UserLeft { num_users: room.users - 1, username: room.slots[from]->0 },
        ),
{
    law_deliveries_over_arrival(room, from, InboundView::Disconnect);
    lemma_fan_out_one(
        room,
        from,
        OutboundView::UserLeft { num_users: room.users - 1, username: room.slots[from]->0 },
    );
}

/// Whatever a room sends on an event goes to connections that are live once the event
/// has been handled.
pub proof fn law_deliveries_reach_live_connections(room: RoomView, from: int, event: InboundView)
    ensures
        forall|k: int|
            0 <= k < room.deliveries(from, event).len() ==> room.step(from, event).is_live(
                (#[trigger] room.deliveries(from, event)[k]).to,
            ),
{
    let after = room.step(from, event);
    law_deliveries_respect_audience(room, from, event);
    if !room.is_live(from) {
        lemma_fan_out_none(after, from);
    } else if event is Disconnect {
        if room.slots[from] is Named {
            law_named_disconnect_deliveries(room, from);
        } else {
            law_anonymous_disconnect_is_silent(room, from);
        }
    } else {
        assert(after.is_live(from));
    }
}

/// An event from a connection that is not live, because it never arrived or because
/// it has disconnected, changes nothing and sends nothing. In particular a connection
/// disconnects once.
pub proof fn law_events_of_gone_connections_do_nothing(
    room: RoomView,
    from: int,
    event: InboundView,
)
    requires
        !room.is_live(from),
    ensures
        room.step(from, event) == room,
        room.deliveries(from, event).len() == 0,
        !room.step(from, InboundView::Disconnect).is_live(from),
{
    lemma_fan_out_none(room, from);
}

/// A connection that has disconnected receives nothing of what the room sends
/// afterwards.
pub proof fn law_gone_connection_receives_nothing(
    room: RoomView,
    gone: int,
    from: int,
    event: InboundView,
)
    ensures
        ({
            let after = room.step(gone, InboundView::Disconnect);
            forall|k: int|
                0 <= k < after.deliveries(from, event).len() ==> (
                #[trigger] after.deliveries(from, event)[k]).to != gone
        }),
{
    let after = room.step(gone, InboundView::Disconnect);
    assert(!after.is_live(gone));
    law_event_touches_its_sender_only(after, from, event);
    law_deliveries_reach_live_connections(after, from, event);
    if !after.is_live(from) {
        lemma_fan_out_none(after.step(from, event), from);
    }
}

/// A chat message goes to each of the others once, under the identity that its sender
/// carries, and leaves the room as it is. The sender gets nothing.
pub proof fn law_message_deliveries(room: RoomView, from: int, text: Seq<char>)
    requires
        room.is_live(from),
    ensures
        room.step(from, InboundView::NewMessage(text)) == room,
        room.deliveries(from, InboundView::NewMessage(text)) == addressed(
            room.others(from),
            OutboundView::NewMessage { username: room.identity_of(from), message: text },
        ),
{
    lemma_fan_out_one(
        room,
        from,
        OutboundView::NewMessage { username: room.identity_of(from), message: text },
    );
}

/// The room keeps no memory of typing notices: a notice leaves the room as it is, so
/// that each one sent is fanned out in full, to each of the others once, however many
/// went before it.
pub proof fn law_typing_is_not_remembered(room: RoomView, from: int)
    requires
        room.is_live(from),
    ensures
        room.step(from, InboundView::Typing) == room,
        room.deliveries(from, InboundView::Typing) == addressed(
            room.others(from),
            OutboundView::Typing { username: room.identity_of(from) },
        ),
        room.step(from, InboundView::Typing).deliveries(from, InboundView::Typing)
            == room.deliveries(from, InboundView::Typing),
        room.step(from, InboundView::StopTyping) == room,
        room.deliveries(from, InboundView::StopTyping) == addressed(
            room.others(from),
            OutboundView::StopTyping { username: room.identity_of(from) },
        ),
{
    lemma_fan_out_one(room, from, OutboundView::Typing { username: room.identity_of(from) });
    lemma_fan_out_one(room, from, OutboundView::StopTyping { username: room.identity_of(from) });
}

/// An event for its sender is delivered to the originator, once, and to nobody else.
pub proof fn law_emit_self_reaches_sender_only(room: RoomView, origin: int, event: OutboundView)
    ensures
        room.is_live(origin) ==> room.to_sender(origin, event).len() == 1,
        forall|k: int|
            0 <= k < room.to_sender(origin, event).len() ==> #[trigger] room.to_sender(
                origin,
                event,
            )[k] == (DeliveryView { to: origin, event }),
{
}

/// An event for the others is delivered to every live connection but the originator,
/// to each once, and to nobody else.
pub proof fn law_emit_others_reaches_others_only(room: RoomView, origin: int, event: OutboundView)
    ensures
        forall|k: int|
            0 <= k < room.to_others(origin, event).len() ==> {
                let delivery = #[trigger] room.to_others(origin, event)[k];
                &&& delivery.event == event
                &&& delivery.to != origin
                &&& room.is_live(delivery.to)
            },
        forall|j: int, k: int|
            0 <= j < k < room.to_others(origin, event).len() ==> room.to_others(origin, event)[j].to
                < room.to_others(origin, event)[k].to,
        forall|id: int|
            room.is_live(id) && id != origin ==> exists|k: int|
                0 <= k < room.to_others(origin, event).len() && #[trigger] room.to_others(
                    origin,
                    event,
                )[k].to == id,
{
    lemma_others_below(room.slots, origin, room.slots.len() as int);
    let ids = room.others(origin);
    let sent = room.to_others(origin, event);
    assert forall|id: int| room.is_live(id) && id != origin implies exists|k: int|
        0 <= k < sent.len() && #[trigger] sent[k].to == id by {
        assert(ids.contains(id));
        let k = choose|k: int| 0 <= k < ids.len() && ids[k] == id;
        assert(sent[k].to == id);
    }
}

/// Whatever a room sends goes where the kind of the event says.
pub proof fn law_fan_out_respects_audience(
    room: RoomView,
    origin: int,
    events: Seq<OutboundView>,
)
    ensures
        forall|k: int|
            0 <= k < room.fan_out_all(origin, events).len() ==> respects_audience(
                room,
                origin,
                #[trigger] room.fan_out_all(origin, events)[k],
            ),
    decreases events.len(),
{
    if events.len() > 0 {
        law_fan_out_respects_audience(room, origin, events.drop_last());
        law_emit_others_reaches_others_only(room, origin, events.last());
        let before = room.fan_out_all(origin, events.drop_last());
        let last = room.fan_out(origin, events.last());
        let all = room.fan_out_all(origin, events);
        assert forall|k: int| 0 <= k < all.len() implies respects_audience(
            room,
            origin,
            #[trigger] all[k],
        ) by {
            if k < before.len() {
                assert(all[k] == before[k]);
            } else {
                assert(all[k] == last[k - before.len()]);
            }
        }
    }
}

/// No connection but the originator sees what an event sends back to its sender, and
/// the originator sees nothing of what its event sends to the others. Those others
/// are live, before the event and after it.
pub proof fn law_deliveries_respect_audience(room: RoomView, from: int, event: InboundView)
    ensures
        forall|k: int|
            0 <= k < room.deliveries(from, event).len() ==> {
                let delivery = #[trigger] room.deliveries(from, event)[k];
                &&& respects_audience(room, from, delivery)
                &&& respects_audience(room.step(from, event), from, delivery)
            },
{
    law_deliveries_over_arrival(room, from, event);
    law_fan_out_respects_audience(room, from, room.emitted(from, event));
    law_fan_out_respects_audience(room.step(from, event), from, room.emitted(from, event));
}

} // verus!

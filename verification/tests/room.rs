use chat_room::event::{Inbound, Outbound};
use chat_room::identity::Username;
use chat_room::room::{Delivery, Room};

fn name(text: &str) -> Username {
    Username::new(text.to_string()).unwrap()
}

fn add_user(text: &str) -> Inbound {
    Inbound::AddUser(text.to_string())
}

fn message(text: &str) -> Inbound {
    Inbound::NewMessage(text.to_string())
}

fn to(id: usize, event: Outbound) -> Delivery {
    Delivery { to: id, event }
}

fn room_of(connections: usize) -> Room {
    let mut room = Room::new();
    for expected in 0..connections {
        assert_eq!(room.connect(), Some(expected));
    }
    room
}

fn named(room: &Room, up_to: usize) -> isize {
    let mut count = 0;
    for id in 0..up_to {
        if room.identity_of(id).is_some() {
            count += 1;
        }
    }
    count
}

#[test]
fn new_room_is_empty() {
    let room = Room::new();
    assert_eq!(room.num_users(), 0);
    assert!(!room.is_live(0));
    assert_eq!(room.identity_of(0), None);
}

#[test]
fn connections_get_rising_ids() {
    let mut room = Room::new();
    assert_eq!(room.connect(), Some(0));
    assert_eq!(room.connect(), Some(1));
    assert_eq!(room.connect(), Some(2));
    assert!(room.is_live(0) && room.is_live(1) && room.is_live(2));
    assert!(!room.is_live(3));
    assert_eq!(room.num_users(), 0);
}

#[test]
fn connect_takes_the_lowest_vacant_place() {
    let mut room = room_of(4);
    room.dispatch(1, Inbound::Disconnect);
    room.dispatch(2, Inbound::Disconnect);
    assert!(!room.is_live(1) && !room.is_live(2));
    assert_eq!(room.connect(), Some(1));
    assert_eq!(room.connect(), Some(2));
    assert_eq!(room.connect(), Some(4));
}

#[test]
fn a_place_taken_again_starts_anonymous() {
    let mut room = room_of(2);
    room.dispatch(0, add_user("alice"));
    room.dispatch(0, Inbound::Disconnect);
    assert_eq!(room.connect(), Some(0));
    assert_eq!(room.identity_of(0), None);
    assert_eq!(room.num_users(), 0);
    let sent = room.dispatch(0, add_user("carol"));
    assert_eq!(sent[0], to(0, Outbound::Login { num_users: 1 }));
    assert_eq!(room.identity_of(0), Some(&name("carol")));
}

#[test]
fn two_joins_in_order() {
    let mut room = room_of(2);
    let first = room.dispatch(0, add_user("alice"));
    assert_eq!(
        first,
        vec![
            to(0, Outbound::Login { num_users: 1 }),
            to(1, Outbound::UserJoined { num_users: 1, username: name("alice") }),
        ]
    );
    let second = room.dispatch(1, add_user("bob"));
    assert_eq!(
        second,
        vec![
            to(1, Outbound::Login { num_users: 2 }),
            to(0, Outbound::UserJoined { num_users: 2, username: name("bob") }),
        ]
    );
    let joined_for_bob = second
        .iter()
        .filter(|delivery| delivery.to == 1 && delivery.event.name() == "user joined")
        .count();
    assert_eq!(joined_for_bob, 0);
    assert_eq!(room.num_users(), 2);
}

#[test]
fn chat_message_reaches_the_other_only() {
    let mut room = room_of(2);
    room.dispatch(0, add_user("alice"));
    room.dispatch(1, add_user("bob"));
    let sent = room.dispatch(0, message("hi"));
    assert_eq!(
        sent,
        vec![to(
            1,
            Outbound::NewMessage { username: Some(name("alice")), message: "hi".to_string() }
        )]
    );
    assert!(sent.iter().all(|delivery| delivery.to != 0));
    assert_eq!(room.num_users(), 2);
}

#[test]
fn leave_is_announced_with_the_count_after_it() {
    let mut room = room_of(2);
    room.dispatch(0, add_user("alice"));
    room.dispatch(1, add_user("bob"));
    let sent = room.dispatch(0, Inbound::Disconnect);
    assert_eq!(
        sent,
        vec![to(1, Outbound::UserLeft { num_users: 1, username: name("alice") })]
    );
    assert_eq!(room.num_users(), 1);
    assert!(!room.is_live(0));
    assert!(room.is_live(1));
}

#[test]
fn leave_is_announced_to_anonymous_connections_too() {
    let mut room = room_of(3);
    room.dispatch(1, add_user("bob"));
    let sent = room.dispatch(1, Inbound::Disconnect);
    assert_eq!(
        sent,
        vec![
            to(0, Outbound::UserLeft { num_users: 0, username: name("bob") }),
            to(2, Outbound::UserLeft { num_users: 0, username: name("bob") }),
        ]
    );
    assert_eq!(room.num_users(), 0);
}

#[test]
fn join_twice_counts_once() {
    let mut room = room_of(3);
    let first = room.dispatch(0, add_user("alice"));
    let second = room.dispatch(0, add_user("alice"));
    assert_eq!(first.len(), 3);
    let announcements = first
        .iter()
        .chain(second.iter())
        .filter(|delivery| delivery.event.name() == "user joined" && delivery.to == 1)
        .count();
    assert_eq!(announcements, 1);
    assert!(second.is_empty());
    assert_eq!(room.num_users(), 1);
}

#[test]
fn join_under_another_name_keeps_the_first() {
    let mut room = room_of(2);
    room.dispatch(0, add_user("alice"));
    let again = room.dispatch(0, add_user("mallory"));
    assert!(again.is_empty());
    assert_eq!(room.identity_of(0), Some(&name("alice")));
    assert_eq!(room.num_users(), 1);
}

#[test]
fn join_with_empty_name_does_nothing() {
    let mut room = room_of(2);
    let sent = room.dispatch(0, add_user(""));
    assert!(sent.is_empty());
    assert_eq!(room.identity_of(0), None);
    assert_eq!(room.num_users(), 0);
    let sent = room.dispatch(0, add_user("alice"));
    assert_eq!(sent.len(), 2);
    assert_eq!(room.num_users(), 1);
}

#[test]
fn disconnect_without_join_is_silent() {
    let mut room = room_of(3);
    room.dispatch(1, add_user("bob"));
    let sent = room.dispatch(0, Inbound::Disconnect);
    assert!(sent.is_empty());
    assert_eq!(room.num_users(), 1);
    assert!(!room.is_live(0));
}

#[test]
fn disconnect_happens_once() {
    let mut room = room_of(2);
    room.dispatch(0, add_user("alice"));
    let first = room.dispatch(0, Inbound::Disconnect);
    let second = room.dispatch(0, Inbound::Disconnect);
    assert_eq!(first.len(), 1);
    assert!(second.is_empty());
    assert_eq!(room.num_users(), 0);
}

#[test]
fn gone_connection_receives_nothing() {
    let mut room = room_of(3);
    room.dispatch(0, add_user("alice"));
    room.dispatch(1, add_user("bob"));
    room.dispatch(2, add_user("carol"));
    let before = room.dispatch(0, message("one"));
    assert_eq!(before.iter().map(|delivery| delivery.to).collect::<Vec<usize>>(), vec![1, 2]);
    room.dispatch(1, Inbound::Disconnect);
    let after = room.dispatch(0, message("two"));
    assert_eq!(after.iter().map(|delivery| delivery.to).collect::<Vec<usize>>(), vec![2]);
}

#[test]
fn events_from_unknown_connections_do_nothing() {
    let mut room = room_of(2);
    room.dispatch(0, add_user("alice"));
    for event in [
        add_user("eve"),
        message("hi"),
        Inbound::Typing,
        Inbound::StopTyping,
        Inbound::Disconnect,
    ] {
        let sent = room.dispatch(7, event);
        assert!(sent.is_empty());
    }
    assert_eq!(room.num_users(), 1);
    assert!(room.is_live(0) && room.is_live(1));
    assert!(!room.is_live(7));
}

#[test]
fn events_from_gone_connections_do_nothing() {
    let mut room = room_of(2);
    room.dispatch(0, add_user("alice"));
    room.dispatch(0, Inbound::Disconnect);
    assert!(room.dispatch(0, message("hi")).is_empty());
    assert!(room.dispatch(0, Inbound::Typing).is_empty());
    assert!(room.dispatch(0, add_user("alice")).is_empty());
    assert_eq!(room.num_users(), 0);
    assert_eq!(room.identity_of(0), None);
}

#[test]
fn anonymous_chat_message_goes_out_without_identity() {
    let mut room = room_of(2);
    let sent = room.dispatch(0, message("hi"));
    assert_eq!(
        sent,
        vec![to(1, Outbound::NewMessage { username: None, message: "hi".to_string() })]
    );
    let sent = room.dispatch(0, Inbound::Typing);
    assert_eq!(sent, vec![to(1, Outbound::Typing { username: None })]);
    assert_eq!(room.num_users(), 0);
}

#[test]
fn typing_is_sent_each_time() {
    let mut room = room_of(3);
    room.dispatch(0, add_user("alice"));
    let expected = vec![
        to(1, Outbound::Typing { username: Some(name("alice")) }),
        to(2, Outbound::Typing { username: Some(name("alice")) }),
    ];
    for _ in 0..5 {
        assert_eq!(room.dispatch(0, Inbound::Typing), expected);
    }
    assert_eq!(room.num_users(), 1);
}

#[test]
fn stop_typing_is_sent_each_time() {
    let mut room = room_of(2);
    room.dispatch(1, add_user("bob"));
    let expected = vec![to(0, Outbound::StopTyping { username: Some(name("bob")) })];
    for _ in 0..3 {
        assert_eq!(room.dispatch(1, Inbound::StopTyping), expected);
    }
}

#[test]
fn alone_in_the_room() {
    let mut room = room_of(1);
    let sent = room.dispatch(0, add_user("alice"));
    assert_eq!(sent, vec![to(0, Outbound::Login { num_users: 1 })]);
    assert!(room.dispatch(0, message("anyone?")).is_empty());
    assert!(room.dispatch(0, Inbound::Typing).is_empty());
    assert!(room.dispatch(0, Inbound::Disconnect).is_empty());
    assert_eq!(room.num_users(), 0);
}

#[test]
fn emit_self_reaches_the_originator_only() {
    let room = room_of(4);
    for origin in 0..4 {
        let sent = room.emit_self(origin, Outbound::Login { num_users: 9 });
        assert_eq!(sent, vec![to(origin, Outbound::Login { num_users: 9 })]);
    }
}

#[test]
fn emit_others_never_reaches_the_originator() {
    let mut room = room_of(5);
    room.dispatch(3, Inbound::Disconnect);
    for origin in 0..5 {
        let sent = room.emit_others(origin, Outbound::Typing { username: None });
        let recipients: Vec<usize> = sent.iter().map(|delivery| delivery.to).collect();
        let expected: Vec<usize> =
            (0..5).filter(|id| *id != origin && *id != 3).collect();
        assert_eq!(recipients, expected);
        assert!(sent.iter().all(|delivery| delivery.event == Outbound::Typing { username: None }));
    }
}

#[test]
fn emit_goes_by_the_kind_of_the_event() {
    let room = room_of(3);
    assert_eq!(
        room.emit(1, Outbound::Login { num_users: 1 }),
        vec![to(1, Outbound::Login { num_users: 1 })]
    );
    assert_eq!(
        room.emit(1, Outbound::UserJoined { num_users: 1, username: name("bob") }),
        vec![
            to(0, Outbound::UserJoined { num_users: 1, username: name("bob") }),
            to(2, Outbound::UserJoined { num_users: 1, username: name("bob") }),
        ]
    );
}

#[test]
fn emit_all_keeps_the_order_of_the_events() {
    let room = room_of(3);
    let sent = room.emit_all(
        2,
        vec![
            Outbound::Typing { username: None },
            Outbound::Login { num_users: 4 },
            Outbound::StopTyping { username: None },
        ],
    );
    assert_eq!(
        sent,
        vec![
            to(0, Outbound::Typing { username: None }),
            to(1, Outbound::Typing { username: None }),
            to(2, Outbound::Login { num_users: 4 }),
            to(0, Outbound::StopTyping { username: None }),
            to(1, Outbound::StopTyping { username: None }),
        ]
    );
    assert!(room.emit_all(0, Vec::new()).is_empty());
}

#[test]
fn emit_in_an_empty_room() {
    let room = Room::new();
    assert!(room.emit_others(0, Outbound::Typing { username: None }).is_empty());
    assert!(room.emit_self(0, Outbound::Login { num_users: 0 }).is_empty());
}

#[test]
fn emit_self_skips_a_gone_originator() {
    let mut room = room_of(3);
    room.dispatch(1, Inbound::Disconnect);
    assert!(room.emit_self(1, Outbound::Login { num_users: 1 }).is_empty());
    assert!(room.emit_self(5, Outbound::Login { num_users: 1 }).is_empty());
    assert_eq!(
        room.emit_others(1, Outbound::Typing { username: None }),
        vec![
            to(0, Outbound::Typing { username: None }),
            to(2, Outbound::Typing { username: None }),
        ]
    );
}

#[test]
fn count_is_the_number_of_named_connections() {
    let mut room = room_of(6);
    let script: Vec<(usize, Inbound)> = vec![
        (0, add_user("a")),
        (1, add_user("b")),
        (1, add_user("b")),
        (2, Inbound::Disconnect),
        (3, message("x")),
        (3, add_user("")),
        (3, add_user("d")),
        (0, Inbound::Disconnect),
        (0, Inbound::Disconnect),
        (4, Inbound::Typing),
        (5, add_user("f")),
        (1, Inbound::Disconnect),
        (9, add_user("nobody")),
        (4, add_user("e")),
    ];
    for (from, event) in script {
        room.dispatch(from, event);
        assert_eq!(room.num_users(), named(&room, 6));
        assert!(room.num_users() >= 0);
    }
    assert_eq!(room.num_users(), 3);
}

#[test]
fn count_follows_interleaved_joins_and_leaves() {
    let mut room = Room::new();
    let mut ids = Vec::new();
    for round in 0..50 {
        let id = room.connect().unwrap();
        ids.push(id);
        if round % 2 == 0 {
            room.dispatch(id, add_user("user"));
        }
        if round % 3 == 0 {
            let gone = ids.remove(0);
            room.dispatch(gone, Inbound::Disconnect);
        }
        assert_eq!(room.num_users(), named(&room, 64));
    }
    for id in ids {
        room.dispatch(id, Inbound::Disconnect);
    }
    assert_eq!(room.num_users(), 0);
}

#[test]
fn every_delivery_respects_its_audience() {
    let mut room = room_of(4);
    let script: Vec<(usize, Inbound)> = vec![
        (0, add_user("a")),
        (1, add_user("b")),
        (2, message("hello")),
        (3, Inbound::Typing),
        (1, Inbound::StopTyping),
        (0, Inbound::Disconnect),
        (2, add_user("c")),
        (1, Inbound::Disconnect),
    ];
    for (from, event) in script {
        let sent = room.dispatch(from, event);
        for delivery in sent {
            if delivery.event.name() == "login" {
                assert_eq!(delivery.to, from);
            } else {
                assert_ne!(delivery.to, from);
                assert!(room.is_live(delivery.to));
            }
        }
    }
}

#[test]
fn identities_are_kept_apart() {
    let mut room = room_of(3);
    room.dispatch(0, add_user("alice"));
    room.dispatch(2, add_user("carol"));
    assert_eq!(room.identity_of(0), Some(&name("alice")));
    assert_eq!(room.identity_of(1), None);
    assert_eq!(room.identity_of(2), Some(&name("carol")));
    assert_eq!(room.identity_of(3), None);
}

#[test]
fn two_connections_may_share_a_name() {
    let mut room = room_of(2);
    room.dispatch(0, add_user("sam"));
    let sent = room.dispatch(1, add_user("sam"));
    assert_eq!(
        sent,
        vec![
            to(1, Outbound::Login { num_users: 2 }),
            to(0, Outbound::UserJoined { num_users: 2, username: name("sam") }),
        ]
    );
    assert_eq!(room.num_users(), 2);
}

use chat_room::event::{
    Audience, Inbound, Outbound, Res, ADD_USER, LOGIN, NEW_MESSAGE, STOP_TYPING, TYPING,
    USER_JOINED, USER_LEFT,
};
use chat_room::identity::Username;

fn name(text: &str) -> Username {
    Username::new(text.to_string()).unwrap()
}

#[test]
fn wire_names_are_exact() {
    assert_eq!(ADD_USER, "add user");
    assert_eq!(NEW_MESSAGE, "new message");
    assert_eq!(TYPING, "typing");
    assert_eq!(STOP_TYPING, "stop typing");
    assert_eq!(LOGIN, "login");
    assert_eq!(USER_JOINED, "user joined");
    assert_eq!(USER_LEFT, "user left");
}

#[test]
fn inbound_names() {
    assert_eq!(Inbound::AddUser("alice".to_string()).name(), Some("add user"));
    assert_eq!(Inbound::NewMessage("hi".to_string()).name(), Some("new message"));
    assert_eq!(Inbound::Typing.name(), Some("typing"));
    assert_eq!(Inbound::StopTyping.name(), Some("stop typing"));
    assert_eq!(Inbound::Disconnect.name(), None);
}

#[test]
fn outbound_names() {
    assert_eq!(Outbound::Login { num_users: 1 }.name(), "login");
    assert_eq!(Outbound::UserJoined { num_users: 1, username: name("a") }.name(), "user joined");
    assert_eq!(Outbound::UserLeft { num_users: 0, username: name("a") }.name(), "user left");
    assert_eq!(
        Outbound::NewMessage { username: None, message: "x".to_string() }.name(),
        "new message"
    );
    assert_eq!(Outbound::Typing { username: None }.name(), "typing");
    assert_eq!(Outbound::StopTyping { username: None }.name(), "stop typing");
}

#[test]
fn only_the_login_goes_back_to_its_sender() {
    assert_eq!(Outbound::Login { num_users: 1 }.audience(), Audience::Sender);
    assert_eq!(
        Outbound::UserJoined { num_users: 1, username: name("a") }.audience(),
        Audience::Others
    );
    assert_eq!(
        Outbound::UserLeft { num_users: 0, username: name("a") }.audience(),
        Audience::Others
    );
    assert_eq!(
        Outbound::NewMessage { username: None, message: "x".to_string() }.audience(),
        Audience::Others
    );
    assert_eq!(Outbound::Typing { username: None }.audience(), Audience::Others);
    assert_eq!(Outbound::StopTyping { username: None }.audience(), Audience::Others);
}

#[test]
fn payload_of_login_has_the_count_only() {
    assert_eq!(Outbound::Login { num_users: 7 }.into_payload(), Res::Login { num_users: 7 });
}

#[test]
fn payload_of_join_and_leave_has_count_and_name() {
    assert_eq!(
        Outbound::UserJoined { num_users: 2, username: name("bob") }.into_payload(),
        Res::UserEvent { num_users: 2, username: name("bob") }
    );
    assert_eq!(
        Outbound::UserLeft { num_users: 1, username: name("alice") }.into_payload(),
        Res::UserEvent { num_users: 1, username: name("alice") }
    );
}

#[test]
fn payload_of_message_has_name_and_text() {
    assert_eq!(
        Outbound::NewMessage { username: Some(name("alice")), message: "hi".to_string() }
            .into_payload(),
        Res::Message { username: Some(name("alice")), message: "hi".to_string() }
    );
    assert_eq!(
        Outbound::NewMessage { username: None, message: "hi".to_string() }.into_payload(),
        Res::Message { username: None, message: "hi".to_string() }
    );
}

#[test]
fn payload_of_typing_has_the_name_only() {
    assert_eq!(
        Outbound::Typing { username: Some(name("alice")) }.into_payload(),
        Res::Username { username: Some(name("alice")) }
    );
    assert_eq!(
        Outbound::StopTyping { username: Some(name("alice")) }.into_payload(),
        Res::Username { username: Some(name("alice")) }
    );
    assert_eq!(
        Outbound::Typing { username: None }.into_payload(),
        Res::Username { username: None }
    );
}

#[test]
fn outbound_clone_is_equal() {
    let events = vec![
        Outbound::Login { num_users: 1 },
        Outbound::UserJoined { num_users: 1, username: name("a") },
        Outbound::UserLeft { num_users: 0, username: name("a") },
        Outbound::NewMessage { username: Some(name("a")), message: "x".to_string() },
        Outbound::Typing { username: None },
        Outbound::StopTyping { username: Some(name("b")) },
    ];
    for event in &events {
        assert_eq!(&event.clone(), event);
    }
}

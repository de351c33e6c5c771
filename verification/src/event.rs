//! The events of a room: what a connection sends in, what the room sends out, and the
//! payload shapes that go over the wire.

use crate::identity::Username;
use vstd::prelude::*;

verus! {

/// The name under which a connection announces itself.
pub const ADD_USER: &'static str = "add user";

/// The name of a chat message, inbound and outbound.
pub const NEW_MESSAGE: &'static str = "new message";

/// The name of the notice that a user started typing, inbound and outbound.
pub const TYPING: &'static str = "typing";

/// The name of the notice that a user stopped typing, inbound and outbound.
pub const STOP_TYPING: &'static str = "stop typing";

/// The name of the room's answer to a join.
pub const LOGIN: &'static str = "login";

/// The name of the room's announcement of a join.
pub const USER_JOINED: &'static str = "user joined";

/// The name of the room's announcement of a leave.
pub const USER_LEFT: &'static str = "user left";

/// Who receives an outbound event, seen from the connection that caused it.
#[derive(Clone, Copy, Debug, PartialEq, Eq, Structural)]
pub enum Audience {
    /// The originating connection, and no other.
    Sender,
    /// Every live connection of the room but the originating one.
    Others,
}

/// What a connection can send to the room.
#[derive(Debug, PartialEq, Eq)]
pub enum Inbound {
    /// `"add user"`: announce oneself under a display name.
    AddUser(String),
    /// `"new message"`: say something to the room.
    NewMessage(String),
    /// `"typing"`: the user started typing.
    Typing,
    /// `"stop typing"`: the user stopped typing.
    StopTyping,
    /// The connection went away. It has no name on the wire.
    Disconnect,
}

/// An [`Inbound`] event with its text as sequences of characters.
pub enum InboundView {
    AddUser(Seq<char>),
    NewMessage(Seq<char>),
    Typing,
    StopTyping,
    Disconnect,
}

impl InboundView {
    /// The name of the event on the wire; the disconnect has none.
    pub open spec fn name(self) -> Option<Seq<char>> {
        match self {
            InboundView::AddUser(_) => Some(ADD_USER@),
            InboundView::NewMessage(_) => Some(NEW_MESSAGE@),
            InboundView::Typing => Some(TYPING@),
            InboundView::StopTyping => Some(STOP_TYPING@),
            InboundView::Disconnect => None,
        }
    }
}

impl View for Inbound {
    type V = InboundView;

    open spec fn view(&self) -> InboundView {
        match *self {
            Inbound::AddUser(name) => InboundView::AddUser(name@),
            Inbound::NewMessage(text) => InboundView::NewMessage(text@),
            Inbound::Typing => InboundView::Typing,
            Inbound::StopTyping => InboundView::StopTyping,
            Inbound::Disconnect => InboundView::Disconnect,
        }
    }
}

impl Inbound {
    /// The name under which the event arrives, if it has one.
    pub fn name(&self) -> (name: Option<&'static str>)
        ensures
            name is Some <==> self@.name() is Some,
            name is Some ==> name->0@ == self@.name()->0,
    {
        match self {
            Inbound::AddUser(_) => Some(ADD_USER),
            Inbound::NewMessage(_) => Some(NEW_MESSAGE),
            Inbound::Typing => Some(TYPING),
            Inbound::StopTyping => Some(STOP_TYPING),
            Inbound::Disconnect => None,
        }
    }
}

/// The view of an identity slot: the name in it, if any.
pub open spec fn identity_view(identity: Option<Username>) -> Option<Seq<char>> {
    match identity {
        Some(name) => Some(name@),
        None => None,
    }
}

/// A copy of an identity slot.
pub(crate) fn clone_identity(identity: &Option<Username>) -> (copy: Option<Username>)
    ensures
        identity_view(copy) == identity_view(*identity),
{
    match identity {
        Some(name) => Some(name.clone()),
        None => None,
    }
}

/// A payload as it goes over the wire: one of four shapes, told apart by the event's
/// name alone.
#[derive(Debug, PartialEq, Eq)]
#[allow(inconsistent_fields)]
pub enum Res {
    /// `{ numUsers }`
    Login { num_users: isize },
    /// `{ numUsers, username }`
    UserEvent { num_users: isize, username: Username },
    /// `{ username, message }`
    Message { username: Option<Username>, message: String },
    /// `{ username }`
    Username { username: Option<Username> },
}

/// A [`Res`] with its numbers as integers and its text as sequences of characters.
#[allow(inconsistent_fields)]
pub enum ResView {
    Login { num_users: int },
    UserEvent { num_users: int, username: Seq<char> },
    Message { username: Option<Seq<char>>, message: Seq<char> },
    Username { username: Option<Seq<char>> },
}

impl ResView {
    /// Whether the payload has a user count.
    pub open spec fn has_count(self) -> bool {
        self is Login || self is UserEvent
    }

    /// Whether the payload has a message text.
    pub open spec fn has_message(self) -> bool {
        self is Message
    }

    /// Whether the payload has a field for the sender's name.
    pub open spec fn has_username(self) -> bool {
        !(self is Login)
    }
}

impl View for Res {
    type V = ResView;

    open spec fn view(&self) -> ResView {
        match *self {
            Res::Login { num_users } => ResView::Login { num_users: num_users as int },
            Res::UserEvent { num_users, username } => ResView::UserEvent {
                num_users: num_users as int,
                username: username@,
            },
            Res::Message { username, message } => ResView::Message {
                username: identity_view(username),
                message: message@,
            },
            Res::Username { username } => ResView::Username { username: identity_view(username) },
        }
    }
}

/// What the room sends out: a closed set of event kinds, each with its own fields.
#[derive(Debug, PartialEq, Eq)]
#[allow(inconsistent_fields)]
pub enum Outbound {
    /// `"login"`: tells a connection that it has joined, and how many users there are now.
    Login { num_users: isize },
    /// `"user joined"`: somebody joined, and how many users there are now.
    UserJoined { num_users: isize, username: Username },
    /// `"user left"`: somebody left, and how many users there are now.
    UserLeft { num_users: isize, username: Username },
    /// `"new message"`: a chat message, with the identity that its sender carries.
    NewMessage { username: Option<Username>, message: String },
    /// `"typing"`: somebody started typing.
    Typing { username: Option<Username> },
    /// `"stop typing"`: somebody stopped typing.
    StopTyping { username: Option<Username> },
}

/// An [`Outbound`] event with its numbers as integers and its text as sequences of
/// characters.
#[allow(inconsistent_fields)]
pub enum OutboundView {
    Login { num_users: int },
    UserJoined { num_users: int, username: Seq<char> },
    UserLeft { num_users: int, username: Seq<char> },
    NewMessage { username: Option<Seq<char>>, message: Seq<char> },
    Typing { username: Option<Seq<char>> },
    StopTyping { username: Option<Seq<char>> },
}

impl OutboundView {
    /// The name of the event on the wire.
    pub open spec fn name(self) -> Seq<char> {
        match self {
            OutboundView::Login { .. } => LOGIN@,
            OutboundView::UserJoined { .. } => USER_JOINED@,
            OutboundView::UserLeft { .. } => USER_LEFT@,
            OutboundView::NewMessage { .. } => NEW_MESSAGE@,
            OutboundView::Typing { .. } => TYPING@,
            OutboundView::StopTyping { .. } => STOP_TYPING@,
        }
    }

    /// Who receives the event: a login goes back to its sender, everything else goes to
    /// the others.
    pub open spec fn audience(self) -> Audience {
        match self {
            OutboundView::Login { .. } => Audience::Sender,
            _ => Audience::Others,
        }
    }

    /// The payload that goes over the wire with the event.
    pub open spec fn payload(self) -> ResView {
        match self {
            OutboundView::Login { num_users } => ResView::Login { num_users },
            OutboundView::UserJoined { num_users, username } => ResView::UserEvent {
                num_users,
                username,
            },
            OutboundView::UserLeft { num_users, username } => ResView::UserEvent {
                num_users,
                username,
            },
            OutboundView::NewMessage { username, message } => ResView::Message {
                username,
                message,
            },
            OutboundView::Typing { username } => ResView::Username { username },
            OutboundView::StopTyping { username } => ResView::Username { username },
        }
    }

    /// Whether the event reports that somebody joined or left.
    pub open spec fn reports_presence(self) -> bool {
        self is Login || self is UserJoined || self is UserLeft
    }
}

impl View for Outbound {
    type V = OutboundView;

    open spec fn view(&self) -> OutboundView {
        match *self {
            Outbound::Login { num_users } => OutboundView::Login { num_users: num_users as int },
            Outbound::UserJoined { num_users, username } => OutboundView::UserJoined {
                num_users: num_users as int,
                username: username@,
            },
            Outbound::UserLeft { num_users, username } => OutboundView::UserLeft {
                num_users: num_users as int,
                username: username@,
            },
            Outbound::NewMessage { username, message } => OutboundView::NewMessage {
                username: identity_view(username),
                message: message@,
            },
            Outbound::Typing { username } => OutboundView::Typing {
                username: identity_view(username),
            },
            Outbound::StopTyping { username } => OutboundView::StopTyping {
                username: identity_view(username),
            },
        }
    }
}

impl Outbound {
    /// The name under which the event goes over the wire.
    pub fn name(&self) -> (name: &'static str)
        ensures
            name@ == self@.name(),
    {
        match self {
            Outbound::Login { .. } => LOGIN,
            Outbound::UserJoined { .. } => USER_JOINED,
            Outbound::UserLeft { .. } => USER_LEFT,
            Outbound::NewMessage { .. } => NEW_MESSAGE,
            Outbound::Typing { .. } => TYPING,
            Outbound::StopTyping { .. } => STOP_TYPING,
        }
    }

    /// Who receives the event.
    pub fn audience(&self) -> (audience: Audience)
        ensures
            audience == self@.audience(),
    {
        match self {
            Outbound::Login { .. } => Audience::Sender,
            _ => Audience::Others,
        }
    }

    /// Strips the event of its kind and leaves the payload for the wire.
    pub fn into_payload(self) -> (payload: Res)
        ensures
            payload@ == self@.payload(),
    {
        match self {
            Outbound::Login { num_users } => Res::Login { num_users },
            Outbound::UserJoined { num_users, username } => Res::UserEvent { num_users, username },
            Outbound::UserLeft { num_users, username } => Res::UserEvent { num_users, username },
            Outbound::NewMessage { username, message } => Res::Message { username, message },
            Outbound::Typing { username } => Res::Username { username },
            Outbound::StopTyping { username } => Res::Username { username },
        }
    }
}

impl Clone for Outbound {
    fn clone(&self) -> (copy: Self)
        ensures
            copy@ == self@,
    {
        match self {
            Outbound::Login { num_users } => Outbound::Login { num_users: *num_users },
            Outbound::UserJoined { num_users, username } => Outbound::UserJoined {
                num_users: *num_users,
                username: username.clone(),
            },
            Outbound::UserLeft { num_users, username } => Outbound::UserLeft {
                num_users: *num_users,
                username: username.clone(),
            },
            Outbound::NewMessage { username, message } => Outbound::NewMessage {
                username: clone_identity(username),
                message: message.clone(),
            },
            Outbound::Typing { username } => Outbound::Typing {
                username: clone_identity(username),
            },
            Outbound::StopTyping { username } => Outbound::StopTyping {
                username: clone_identity(username),
            },
        }
    }
}

} // verus!

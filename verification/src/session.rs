//! One connection's state and its handlers.

use crate::event::{clone_identity, identity_view, Outbound, OutboundView};
use crate::identity::Username;
use crate::model::{join_events, join_registers};
use crate::presence::UserCnt;
use vstd::prelude::*;

verus! {

/// The views of a list of outbound events, in order.
pub open spec fn outbound_views(events: Seq<Outbound>) -> Seq<OutboundView> {
    events.map_values(|event: Outbound| event@)
}

/// The state of one live connection: its identity slot, empty until the connection joins.
///
/// A session is anonymous while the slot is empty and named once it is filled. The slot
/// is filled at most once.
#[derive(Debug)]
pub struct Session {
    identity: Option<Username>,
}

impl View for Session {
    type V = Option<Seq<char>>;

    closed spec fn view(&self) -> Option<Seq<char>> {
        identity_view(self.identity)
    }
}

impl Session {
    /// A session for a fresh connection: anonymous.
    pub fn new() -> (session: Self)
        ensures
            session@ is None,
    {
        Session { identity: None }
    }

    /// Stores `name` as the session's identity if it has none yet, and says whether it
    /// did. A session that has an identity keeps it.
    pub fn try_set_identity(&mut self, name: Username) -> (stored: bool)
        ensures
            stored == (old(self)@ is None),
            stored ==> final(self)@ == Some(name@),
            !stored ==> final(self)@ == old(self)@,
    {
        if self.identity.is_some() {
            false
        } else {
            self.identity = Some(name);
            true
        }
    }

    /// The session's identity, if it has one. An identity is never empty.
    pub fn get_identity(&self) -> (identity: Option<&Username>)
        ensures
            self@ is Some <==> identity is Some,
            identity is Some ==> self@ == Some(identity->0@),
            identity is Some ==> identity->0@.len() > 0,
    {
        match &self.identity {
            Some(name) => {
                // Reading the name is what shows that it is not empty.
                let _ = name.as_str();
                Some(name)
            },
            None => None,
        }
    }

    /// Handles `"add user"`.
    ///
    /// On an anonymous session and with a name that is not empty, the session takes the
    /// name, the count goes up by one, and the session emits a login with the new count
    /// and an announcement with the new count and the name. Otherwise nothing changes
    /// and nothing is emitted.
    pub fn join(&mut self, users: &mut UserCnt, name: String) -> (emitted: Vec<Outbound>)
        requires
            join_registers(old(self)@, name@) ==> old(users)@ < isize::MAX,
        ensures
            join_registers(old(self)@, name@) ==> {
                &&& final(self)@ == Some(name@)
                &&& final(users)@ == old(users)@ + 1
                &&& outbound_views(emitted@) == join_events(old(users)@ + 1, name@)
            },
            !join_registers(old(self)@, name@) ==> {
                &&& final(self)@ == old(self)@
                &&& final(users)@ == old(users)@
                &&& emitted@.len() == 0
            },
    {
        let mut emitted: Vec<Outbound> = Vec::new();
        if self.identity.is_some() {
            return emitted;
        }
        match Username::new(name) {
            None => emitted,
            Some(username) => {
                let announced = username.clone();
                let num_users = users.add_user();
                self.identity = Some(username);
                emitted.push(Outbound::Login { num_users });
                emitted.push(Outbound::UserJoined { num_users, username: announced });
                assert(outbound_views(emitted@) =~= join_events(num_users as int, name@));
                emitted
            },
        }
    }

    /// Handles `"new message"`: emits the text under the identity that the session
    /// carries, which is none on an anonymous session.
    pub fn chat_message(&self, text: String) -> (emitted: Outbound)
        ensures
            emitted@ == (OutboundView::NewMessage { username: self@, message: text@ }),
    {
        Outbound::NewMessage { username: clone_identity(&self.identity), message: text }
    }

    /// Handles `"typing"`: emits it under the identity that the session carries.
    pub fn typing_start(&self) -> (emitted: Outbound)
        ensures
            emitted@ == (OutboundView::Typing { username: self@ }),
    {
        Outbound::Typing { username: clone_identity(&self.identity) }
    }

    /// Handles `"stop typing"`: emits it under the identity that the session carries.
    pub fn typing_stop(&self) -> (emitted: Outbound)
        ensures
            emitted@ == (OutboundView::StopTyping { username: self@ }),
    {
        Outbound::StopTyping { username: clone_identity(&self.identity) }
    }

    /// Handles the disconnect, which ends the session.
    ///
    /// A named session takes itself off the count and emits its leave with the new
    /// count. An anonymous session was never counted: it changes nothing and emits
    /// nothing.
    pub fn disconnect(self, users: &mut UserCnt) -> (emitted: Option<Outbound>)
        requires
            self@ is Some ==> old(users)@ > isize::MIN,
        ensures
            match self@ {
                Some(name) => {
                    &&& final(users)@ == old(users)@ - 1
                    &&& emitted is Some
                    &&& emitted->0@ == (OutboundView::UserLeft {
                        num_users: old(users)@ - 1,
                        username: name,
                    })
                },
                None => final(users)@ == old(users)@ && emitted is None,
            },
    {
        match self.identity {
            Some(username) => {
                let num_users = users.remove_user();
                Some(Outbound::UserLeft { num_users, username })
            },
            None => None,
        }
    }
}

} // verus!

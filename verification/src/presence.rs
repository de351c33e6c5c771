//! The presence counter: how many connections of a room have registered an identity.

use vstd::prelude::*;

verus! {

/// The count of connections that have registered an identity.
///
/// The counter only moves by one, up on a join and down on a leave, and cannot be set.
/// It keeps no floor of its own: taking a user from a counter at zero yields a negative
/// count. That the count of a room is never negative is owed to the room's handlers,
/// which take a user off only where one was added.
///
/// A counter is changed through an exclusive borrow, so that two changes cannot
/// interleave and none is lost.
#[derive(Debug)]
pub struct UserCnt {
    count: isize,
}

impl View for UserCnt {
    type V = int;

    closed spec fn view(&self) -> int {
        self.count as int
    }
}

impl UserCnt {
    /// A counter at zero.
    pub fn new() -> (cnt: Self)
        ensures
            cnt@ == 0,
    {
        UserCnt { count: 0 }
    }

    /// Counts one more user and returns the new count.
    pub fn add_user(&mut self) -> (num_users: isize)
        requires
            old(self)@ < isize::MAX,
        ensures
            final(self)@ == old(self)@ + 1,
            num_users == final(self)@,
    {
        self.count = self.count + 1;
        self.count
    }

    /// Counts one user less and returns the new count.
    pub fn remove_user(&mut self) -> (num_users: isize)
        requires
            old(self)@ > isize::MIN,
        ensures
            final(self)@ == old(self)@ - 1,
            num_users == final(self)@,
    {
        self.count = self.count - 1;
        self.count
    }

    /// The current count.
    pub fn current(&self) -> (num_users: isize)
        ensures
            num_users == self@,
    {
        self.count
    }
}

} // verus!

//! Display names.

use vstd::prelude::*;

verus! {

/// The display name under which a connection is known to the room: a string that is
/// never empty.
#[derive(Debug, PartialEq, Eq)]
pub struct Username {
    name: String,
}

impl View for Username {
    type V = Seq<char>;

    closed spec fn view(&self) -> Seq<char> {
        self.name@
    }
}

impl Username {
    #[verifier::type_invariant]
    spec fn nonempty(self) -> bool {
        self.name@.len() > 0
    }

    /// Makes a display name of `name`, unless `name` is empty.
    pub fn new(name: String) -> (made: Option<Username>)
        ensures
            name@.len() == 0 ==> made is None,
            name@.len() > 0 ==> made is Some && made->0@ == name@,
    {
        if name.as_str().is_empty() {
            None
        } else {
            Some(Username { name })
        }
    }

    /// The name as text.
    pub fn as_str(&self) -> (text: &str)
        ensures
            text@ == self@,
            text@.len() > 0,
    {
        proof {
            use_type_invariant(self);
        }
        self.name.as_str()
    }

    /// Gives the name up as an owned string.
    pub fn into_string(self) -> (text: String)
        ensures
            text@ == self@,
            text@.len() > 0,
    {
        proof {
            use_type_invariant(&self);
        }
        self.name
    }
}

impl Clone for Username {
    fn clone(&self) -> (copy: Self)
        ensures
            copy@ == self@,
    {
        proof {
            use_type_invariant(self);
        }
        Username { name: self.name.clone() }
    }
}

} // verus!

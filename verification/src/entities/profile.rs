//! The bot owner's own dating profile.
use vstd::prelude::*;

verus! {

/// A dating profile: a name and an age.
#[derive(Debug)]
pub struct Profile {
    name: String,
    age: i16,
}

impl Profile {
    pub closed spec fn spec_name(&self) -> Seq<char> {
        self.name@
    }

    pub closed spec fn spec_age(&self) -> i16 {
        self.age
    }

    /// The owner's profile: Nikita, 23.
    pub fn _new() -> (r: Profile)
        ensures
            r.spec_name() == "Nikita"@,
            r.spec_age() == 23,
    {
        Profile { name: String::from_str("Nikita"), age: 23 }
    }
}

} // verus!

//! The bot owner's own profile, as the actors see it.
use vstd::prelude::*;

verus! {

/// The owner's profile: a name and an age.
#[derive(Debug)]
pub struct MyProfile {
    name: String,
    age: i16,
}

impl MyProfile {
    pub closed spec fn spec_name(&self) -> Seq<char> {
        self.name@
    }

    pub closed spec fn spec_age(&self) -> i16 {
        self.age
    }

    /// The owner's profile: Nikita, 23.
    pub fn new() -> (r: MyProfile)
        ensures
            r.spec_name() == "Nikita"@,
            r.spec_age() == 23,
    {
        MyProfile { name: String::from_str("Nikita"), age: 23 }
    }
}

} // verus!

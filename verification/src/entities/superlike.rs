//! Super likes: the message sent with a like.
use vstd::prelude::*;
use crate::common::random_number;
use crate::ids::{is_uuid_v4, new_uuid_v4};

verus! {

/// A super like sent for a reviewed profile.
#[derive(Debug)]
pub struct SuperLike {
    id: u128,
    message: String,
    profile_reviewer_id: u128,
}

/// The opening messages a super like can carry.
pub open spec fn starter_messages() -> Seq<Seq<char>> {
    seq!["няшка"@, "ты очень милая"@, "посоветуй аниме"@]
}

impl SuperLike {
    pub closed spec fn spec_message(&self) -> Seq<char> {
        self.message@
    }

    pub closed spec fn spec_profile_reviewer_id(&self) -> u128 {
        self.profile_reviewer_id
    }

    /// A super like with a fresh random id.
    pub fn new(message: String, profile_reviewer_id: u128) -> (r: SuperLike)
        ensures
            r.spec_message() == message@,
            r.spec_profile_reviewer_id() == profile_reviewer_id,
            is_uuid_v4(r.spec_id()),
    {
        SuperLike { id: new_uuid_v4(), message, profile_reviewer_id }
    }

    pub closed spec fn spec_id(&self) -> u128 {
        self.id
    }

    /// A super like as stored in the database.
    pub fn from_row(id: u128, message: String, profile_reviewer_id: u128) -> (r: SuperLike)
        ensures
            r.spec_id() == id,
            r.spec_message() == message@,
            r.spec_profile_reviewer_id() == profile_reviewer_id,
    {
        SuperLike { id, message, profile_reviewer_id }
    }

    /// The id.
    pub fn id(&self) -> (r: u128)
        ensures
            r == self.spec_id(),
    {
        self.id
    }

    /// The review the super like answers.
    pub fn profile_reviewer_id(&self) -> (r: u128)
        ensures
            r == self.spec_profile_reviewer_id(),
    {
        self.profile_reviewer_id
    }

    /// The message.
    pub fn message(&self) -> (r: &str)
        ensures
            r@ == self.spec_message(),
    {
        self.message.as_str()
    }

    /// An opening message picked at random.
    pub fn get_starter() -> (r: String)
        ensures
            starter_messages().contains(r@),
    {
        let index = random_number(0, 3);
        let r = if index == 0 {
            String::from_str("няшка")
        } else if index == 1 {
            String::from_str("ты очень милая")
        } else {
            String::from_str("посоветуй аниме")
        };
        proof {
            assert(starter_messages()[index as int] == r@);
        }
        r
    }
}

} // verus!

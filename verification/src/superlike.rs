//! The texts of a super like, as kept in a JSON file.
use vstd::prelude::*;

verus! {

/// The texts used for super likes.
#[derive(Debug)]
pub struct SuperLike {
    pub nyash: String,
    pub cute: String,
    pub photo_action_like: String,
}

} // verus!

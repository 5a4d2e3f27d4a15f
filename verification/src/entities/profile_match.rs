//! Mutual likes: the profiles that liked the owner back.
use vstd::prelude::*;

verus! {

/// A mutual like: the profile's link and the announcement text.
#[derive(Debug)]
pub struct ProfileMatch {
    pub url: String,
    pub full_text: String,
}

} // verus!

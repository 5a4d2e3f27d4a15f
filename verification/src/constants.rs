//! The dating bot's chat and the record of the last request sent to TDLib.
use vstd::prelude::*;
use crate::keys::RequestKeys;

verus! {

/// The chat id of the dating bot, as text.
pub const VINCHIK_CHAT: &'static str = "1234060895";

/// The chat id of the dating bot.
pub const VINCHIK_CHAT_INT: i64 = 1234060895;

/// The kind of the request that was sent to TDLib last; responses are
/// matched against it. It starts as `Unknown`.
pub struct LastRequest {
    value: RequestKeys,
}

impl View for LastRequest {
    type V = RequestKeys;

    closed spec fn view(&self) -> RequestKeys {
        self.value
    }
}

impl LastRequest {
    /// No request sent yet.
    pub fn new() -> (r: LastRequest)
        ensures
            r@ == RequestKeys::Unknown,
    {
        LastRequest { value: RequestKeys::Unknown }
    }
}

/// The kind of the last request sent.
pub fn get_last_request(last: &LastRequest) -> (r: RequestKeys)
    ensures
        r == last@,
{
    last.value
}

/// Records the kind of a request just sent.
pub fn update_last_request(last: &mut LastRequest, value: RequestKeys)
    ensures
        final(last)@ == value,
{
    last.value = value;
}

} // verus!

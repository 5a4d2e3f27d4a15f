//! Starting a QR-code login.
use vstd::prelude::*;
use crate::td::requests::{is_td_request, qr_code_authentication_json, qr_code_members};

verus! {

/// The request that starts a QR-code login (to be sent to the client).
pub fn qr_auth_init() -> (r: String)
    ensures
        is_td_request(r@, qr_code_members(), "requestQrCodeAuthentication"@),
{
    qr_code_authentication_json()
}

} // verus!

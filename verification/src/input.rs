//! Commands typed at the console.
use vstd::prelude::*;
use crate::constants::VINCHIK_CHAT;
use crate::error::BotError;
use crate::text::{parse_i64, parse_integer};

verus! {

/// Handles a console command: no command is defined, so every input is
/// accepted, provided the dating bot's chat id is a valid `i64`.
pub fn match_input(input: &str) -> (r: Result<(), BotError>)
    ensures
        r is Ok <==> parse_integer(VINCHIK_CHAT@, true, i64::MIN as int, i64::MAX as int) is Some,
        r is Err ==> r == Err::<(), BotError>(BotError::InvalidInteger),
{
    match parse_i64(VINCHIK_CHAT) {
        Some(_) => Ok(()),
        None => Err(BotError::InvalidInteger),
    }
}

} // verus!

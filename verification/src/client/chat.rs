//! Client-side chat handling.
use vstd::prelude::*;

verus! {

/// The text shown for an incoming chat message: the message itself.
pub fn handle_incoming_chat(message: &str) -> (r: String)
    ensures
        r@ == message@,
{
    message.to_owned()
}

} // verus!

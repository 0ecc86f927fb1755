//! Helpers for game-mode scripts: the id types script authors use and the
//! reading of strings the host hands over as bytes.
use vstd::prelude::*;
use vstd::utf8::{valid_utf8, decode_utf8};

verus! {

/// Object id (a network id on the host).
pub type ObjectId = u64;
/// Gamebryo base or reference form id.
pub type GameFormID = u32;
/// World cell id.
pub type CellID = u32;
/// Quest id.
pub type QuestID = u32;
/// Actor value index (health = 0x14, skills, SPECIAL).
pub type ActorValueIndex = u8;
/// Limb index for combat (torso = 0, head = 1, limbs 2 to 5).
pub type LimbIndex = u8;
/// Faction id.
pub type FactionID = u32;

/// `core::str::from_utf8`, owned: the text of `v` when `v` is valid UTF-8,
/// `None` otherwise.
#[verifier::external_body]
fn utf8_text(v: &[u8]) -> (r: Option<String>)
    ensures
        match r {
            Some(s) => valid_utf8(v@) && s@ == decode_utf8(v@),
            None => !valid_utf8(v@),
        },
{
    core::str::from_utf8(v).ok().map(|s| s.to_owned())
}

/// The string the host passed as `bytes`: `None` when there are no bytes
/// (a null pointer or a zero length) or they are not valid UTF-8.
pub fn read_host_string(bytes: Option<&[u8]>) -> (r: Option<String>)
    ensures
        match bytes {
            Some(b) => b@.len() > 0 && valid_utf8(b@) ==> (r matches Some(s) && s@ == decode_utf8(b@)),
            None => r is None,
        },
        r is Some <==> (bytes matches Some(b) && b@.len() > 0 && valid_utf8(b@)),
{
    match bytes {
        Some(b) => {
            if b.len() == 0 {
                return None;
            }
            utf8_text(b)
        },
        None => None,
    }
}

/// The string the host passed, or the empty string when it cannot be read.
pub fn read_host_string_or_empty(bytes: Option<&[u8]>) -> (r: String)
    ensures
        r@ == (match bytes {
            Some(b) => if b@.len() > 0 && valid_utf8(b@) { decode_utf8(b@) } else { Seq::<char>::empty() },
            None => Seq::<char>::empty(),
        }),
{
    match read_host_string(bytes) {
        Some(s) => s,
        None => String::new(),
    }
}

} // verus!

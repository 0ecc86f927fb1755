//! FormID: the universal Gamebryo identifier of a world object.
//!
//! The top byte is the mod (load-order) index; the lower 24 bits are the
//! object index within that mod.
use vstd::prelude::*;

verus! {

/// Gamebryo FormID, unique per object across Fallout 3 / New Vegas.
#[derive(Debug, Clone, Copy, PartialEq, Eq, Hash, Structural)]
pub struct FormID(u32);

impl FormID {
    /// The id's numeric value.
    pub closed spec fn value(self) -> u32 {
        self.0
    }

    /// The null form.
    pub fn null() -> (r: FormID)
        ensures
            r.value() == 0,
    {
        FormID(0)
    }

    pub fn new(id: u32) -> (r: FormID)
        ensures
            r.value() == id,
    {
        FormID(id)
    }

    pub fn as_u32(self) -> (r: u32)
        ensures
            r == self.value(),
    {
        self.0
    }

    pub fn is_null(self) -> (r: bool)
        ensures
            r == (self.value() == 0),
    {
        self.0 == 0
    }

    /// Mod index (top byte).
    pub fn mod_index(self) -> (r: u8)
        ensures
            r == self.value() / 0x0100_0000,
    {
        (self.0 / 0x0100_0000) as u8
    }

    /// Object index within the mod (lower 24 bits).
    pub fn object_id(self) -> (r: u32)
        ensures
            r == self.value() % 0x0100_0000,
    {
        self.0 % 0x0100_0000
    }

    /// Eight upper-case hex digits, as the id prints.
    pub fn to_display_string(self) -> (s: String)
        ensures
            s@ == crate::text::hex_padded(self.value() as nat, 8),
    {
        crate::text::hex8_string(self.0)
    }

    /// Two form ids are the same exactly when their values are equal, so
    /// ids built from the same number (by `new` or by `From`) are equal.
    pub proof fn lemma_value_injective(a: FormID, b: FormID)
        ensures
            a.value() == b.value() <==> a == b,
    {
    }

    /// The mod index and the object index together make up the whole id.
    pub proof fn law_parts_recompose(self)
        ensures
            (self.value() / 0x0100_0000) * 0x0100_0000 + self.value() % 0x0100_0000 == self.value(),
            self.value() / 0x0100_0000 < 256,
    {
    }
}

impl From<u32> for FormID {
    fn from(id: u32) -> (r: FormID)
        ensures
            r.value() == id,
    {
        FormID(id)
    }
}

impl vstd::std_specs::convert::FromSpecImpl<u32> for FormID {
    open spec fn obeys_from_spec() -> bool {
        true
    }

    closed spec fn from_spec(v: u32) -> FormID {
        FormID(v)
    }
}

impl From<FormID> for u32 {
    fn from(id: FormID) -> (r: u32)
        ensures
            r == id.value(),
    {
        id.0
    }
}

impl vstd::std_specs::convert::FromSpecImpl<FormID> for u32 {
    open spec fn obeys_from_spec() -> bool {
        true
    }

    closed spec fn from_spec(v: FormID) -> u32 {
        v.0
    }
}

impl Default for FormID {
    fn default() -> (r: FormID)
        ensures
            r.value() == 0,
    {
        FormID(0)
    }
}

/// Form id and transform of one object of a cell snapshot; the client
/// creates a placeholder from it. Floats are IEEE-754 bit patterns.
#[derive(Debug, Clone, Copy)]
pub struct FormIDSync {
    pub form_id: FormID,
    pub pos: [u32; 3],
    pub angle: [u32; 3],
    pub scale: u32,
    /// Bit flags: 0x01 initially disabled, 0x02 deleted, 0x04 persistent.
    pub flags: u32,
}

impl FormIDSync {
    pub fn new(form_id: FormID, pos: [u32; 3], angle: [u32; 3], scale: u32, flags: u32) -> (r: FormIDSync)
        ensures
            r == (FormIDSync { form_id, pos, angle, scale, flags }),
    {
        FormIDSync { form_id, pos, angle, scale, flags }
    }
}

} // verus!

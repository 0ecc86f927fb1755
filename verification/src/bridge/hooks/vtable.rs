//! VTable slot arithmetic, raw field access on object memory and the
//! per-build form-lookup address.
use vstd::prelude::*;
use crate::bytes::{le32, from_le32, lemma_le32_roundtrip};
use crate::bridge::hooks::address::{Candidate, select_candidate, selected};
use crate::bridge::hooks::memory::{MemoryImage, PatchOp, splice};
use crate::text::{chars_of, string_of_chars};

verus! {

/// Size of a vtable entry in bytes: the pointer width of the host.
pub fn vtable_entry_size() -> (r: usize)
    ensures
        r == usize::BITS / 8,
        r == 4 || r == 8,
{
    (usize::BITS / 8) as usize
}

/// Converts a vtable byte offset to an entry index.
pub fn vtable_index(byte_offset: usize) -> (r: usize)
    ensures
        r == byte_offset / (usize::BITS / 8) as usize,
{
    byte_offset / vtable_entry_size()
}

/// Reads the byte at `obj + offset`; `None` when it is not mapped.
pub fn read_field_u8(image: &MemoryImage, obj: usize, offset: usize) -> (r: Option<u8>)
    ensures
        obj + offset > usize::MAX ==> r is None,
        obj + offset <= usize::MAX ==> match r {
            Some(b) => image.covers((obj + offset) as usize, 1) && seq![b] == image.bytes_at(
                (obj + offset) as usize,
                1,
            ),
            None => !image.covers((obj + offset) as usize, 1),
        },
{
    if offset > usize::MAX - obj {
        return None;
    }
    match image.read(obj + offset, 1) {
        Some(v) => {
            assert(v@ =~= seq![v@[0]]);
            Some(v[0])
        },
        None => None,
    }
}

/// Reads the little-endian 32-bit value at `obj + offset`; `None` when it
/// is not mapped.
pub fn read_field_u32(image: &MemoryImage, obj: usize, offset: usize) -> (r: Option<u32>)
    ensures
        obj + offset > usize::MAX ==> r is None,
        obj + offset <= usize::MAX ==> match r {
            Some(x) => image.covers((obj + offset) as usize, 4) && ({
                let b = image.bytes_at((obj + offset) as usize, 4);
                x == from_le32(b[0], b[1], b[2], b[3])
            }),
            None => !image.covers((obj + offset) as usize, 4),
        },
{
    if offset > usize::MAX - obj {
        return None;
    }
    match image.read(obj + offset, 4) {
        Some(v) => Some(crate::bytes::u32_from_le(v[0], v[1], v[2], v[3])),
        None => None,
    }
}

/// Writes a byte at `obj + offset`; `false`, changing nothing, when it is
/// not mapped.
pub fn write_field_u8(image: &mut MemoryImage, obj: usize, offset: usize, value: u8) -> (r: bool)
    ensures
        final(image).base() == old(image).base(),
        r == (obj + offset <= usize::MAX && old(image).covers((obj + offset) as usize, 1)),
        r ==> final(image).contents() == splice(
            old(image).contents(),
            obj + offset - old(image).base(),
            seq![value],
        ),
        !r ==> final(image).contents() == old(image).contents(),
{
    if offset > usize::MAX - obj {
        return false;
    }
    let op = PatchOp { addr: obj + offset, bytes: vec![value] };
    assert(op.bytes@ =~= seq![value]);
    image.write(&op)
}

/// Writes a little-endian 32-bit value at `obj + offset`; `false`,
/// changing nothing, when it is not mapped.
pub fn write_field_u32(image: &mut MemoryImage, obj: usize, offset: usize, value: u32) -> (r: bool)
    ensures
        final(image).base() == old(image).base(),
        r == (obj + offset <= usize::MAX && old(image).covers((obj + offset) as usize, 4)),
        r ==> final(image).contents() == splice(
            old(image).contents(),
            obj + offset - old(image).base(),
            le32(value),
        ),
        !r ==> final(image).contents() == old(image).contents(),
{
    if offset > usize::MAX - obj {
        return false;
    }
    let mut bytes: Vec<u8> = Vec::new();
    crate::bytes::push_le32(&mut bytes, value);
    assert(bytes@ =~= le32(value));
    let op = PatchOp { addr: obj + offset, bytes };
    image.write(&op)
}

/// Offset of the form id (`TESForm::refID`) in every form.
pub const OFFSET_REF_ID: usize = 0x0C;
/// Offset of the lock byte of a reference; bit 0 is the locked state.
pub const OFFSET_LOCK_BYTE: usize = 0x0A;
/// Bit of the reference flags that marks a disabled reference.
pub const FLAG_DISABLED: u32 = 0x02;
/// Bit pattern of 1.0, the scale reported for a missing object.
pub const UNIT_SCALE_BITS: u32 = 0x3F80_0000;

/// Whether the 32-bit word at `addr` is mapped.
pub open spec fn readable32(image: MemoryImage, addr: int) -> bool {
    0 <= addr <= usize::MAX && image.covers(addr as usize, 4)
}

/// The little-endian 32-bit word at `addr`.
pub open spec fn word_at(image: MemoryImage, addr: int) -> u32 {
    let b = image.bytes_at(addr as usize, 4);
    from_le32(b[0], b[1], b[2], b[3])
}

/// The byte at `addr`.
pub open spec fn byte_at(image: MemoryImage, addr: int) -> u8 {
    image.bytes_at(addr as usize, 1)[0]
}

/// Offset of the scale: right after the position triple.
pub open spec fn scale_off(fnv: bool) -> usize {
    if fnv { 0x3C } else { 0x38 }
}

/// Offset of `TESObjectREFR::parentCell`.
pub open spec fn parent_cell_off(fnv: bool) -> usize {
    if fnv { 0x40 } else { 0x3C }
}

/// Offset of the reference flags word.
pub open spec fn flags_off(fnv: bool) -> usize {
    if fnv { 0x54 } else { 0x50 }
}

/// Offset of an actor's combat target.
pub open spec fn combat_target_off(fnv: bool) -> usize {
    if fnv { 0x430 } else { 0x4E0 }
}

fn scale_offset(fnv: bool) -> (r: usize)
    ensures
        r == scale_off(fnv),
{
    if fnv { 0x3C } else { 0x38 }
}

fn parent_cell_offset(fnv: bool) -> (r: usize)
    ensures
        r == parent_cell_off(fnv),
{
    if fnv { 0x40 } else { 0x3C }
}

fn flags_offset(fnv: bool) -> (r: usize)
    ensures
        r == flags_off(fnv),
{
    if fnv { 0x54 } else { 0x50 }
}

/// Reads a mapped 32-bit field.
fn field32(image: &MemoryImage, obj: usize, offset: usize) -> (r: u32)
    requires
        readable32(*image, obj + offset),
    ensures
        r == word_at(*image, obj + offset),
{
    match read_field_u32(image, obj, offset) {
        Some(v) => v,
        None => 0,
    }
}

/// The form id of the object at `obj`.
pub fn get_ref_id(image: &MemoryImage, obj: usize) -> (r: u32)
    requires
        readable32(*image, obj + OFFSET_REF_ID),
    ensures
        r == word_at(*image, obj + OFFSET_REF_ID),
{
    field32(image, obj, OFFSET_REF_ID)
}

/// The scale (a bit pattern) of the reference at `obj`; 1.0 for a null
/// object.
pub fn get_scale_from_obj(image: &MemoryImage, fnv: bool, obj: usize) -> (r: u32)
    requires
        obj != 0 ==> readable32(*image, obj + scale_off(fnv)),
    ensures
        r == (if obj == 0 { UNIT_SCALE_BITS } else { word_at(*image, obj + scale_off(fnv)) }),
{
    if obj == 0 {
        return UNIT_SCALE_BITS;
    }
    field32(image, obj, scale_offset(fnv))
}

/// The form id of the cell of the reference at `obj`: the parent-cell
/// pointer is followed to the cell's form id; 0 for a null object or cell.
pub open spec fn cell_of(image: MemoryImage, fnv: bool, obj: usize) -> u32 {
    if obj == 0 {
        0
    } else {
        let p = word_at(image, obj + parent_cell_off(fnv));
        if p == 0 {
            0
        } else {
            word_at(image, p + OFFSET_REF_ID)
        }
    }
}

/// The memory `cell_of` reads is mapped.
pub open spec fn cell_readable(image: MemoryImage, fnv: bool, obj: usize) -> bool {
    obj != 0 ==> {
        &&& readable32(image, obj + parent_cell_off(fnv))
        &&& word_at(image, obj + parent_cell_off(fnv)) != 0 ==> readable32(
            image,
            word_at(image, obj + parent_cell_off(fnv)) + OFFSET_REF_ID,
        )
    }
}

/// The cell form id of the reference at `obj`.
pub fn get_cell_from_obj(image: &MemoryImage, fnv: bool, obj: usize) -> (r: u32)
    requires
        cell_readable(*image, fnv, obj),
    ensures
        r == cell_of(*image, fnv, obj),
{
    if obj == 0 {
        return 0;
    }
    let cell = field32(image, obj, parent_cell_offset(fnv));
    if cell == 0 {
        return 0;
    }
    field32(image, cell as usize, OFFSET_REF_ID)
}

/// The parent-cell field of the reference at `obj`; 0 for a null object.
pub fn get_parent_cell_from_obj(image: &MemoryImage, fnv: bool, obj: usize) -> (r: u32)
    requires
        obj != 0 ==> readable32(*image, obj + parent_cell_off(fnv)),
    ensures
        r == (if obj == 0 { 0 } else { word_at(*image, obj + parent_cell_off(fnv)) }),
{
    if obj == 0 {
        return 0;
    }
    field32(image, obj, parent_cell_offset(fnv))
}

/// The combat target of the actor at `obj`; 0 for a null object.
pub fn get_combat_target_from_obj(image: &MemoryImage, fnv: bool, obj: usize) -> (r: u32)
    requires
        obj != 0 ==> readable32(*image, obj + combat_target_off(fnv)),
    ensures
        r == (if obj == 0 { 0 } else { word_at(*image, obj + combat_target_off(fnv)) }),
{
    if obj == 0 {
        return 0;
    }
    let off: usize = if fnv { 0x430 } else { 0x4E0 };
    field32(image, obj, off)
}

/// Whether the reference at `obj` is enabled: its disabled flag is clear.
/// A null object counts as enabled.
pub open spec fn enabled_of(image: MemoryImage, fnv: bool, obj: usize) -> bool {
    obj == 0 || word_at(image, obj + flags_off(fnv)) & FLAG_DISABLED == 0
}

/// The enabled state of the reference at `obj`.
pub fn get_enabled_from_obj(image: &MemoryImage, fnv: bool, obj: usize) -> (r: bool)
    requires
        obj != 0 ==> readable32(*image, obj + flags_off(fnv)),
    ensures
        r == enabled_of(*image, fnv, obj),
{
    if obj == 0 {
        return true;
    }
    let flags = field32(image, obj, flags_offset(fnv));
    flags & FLAG_DISABLED == 0
}

/// The flags word with the disabled bit cleared or set.
pub open spec fn with_enabled(flags: u32, enabled: bool) -> u32 {
    if enabled { flags & !FLAG_DISABLED } else { flags | FLAG_DISABLED }
}

/// The word at `addr` after writing `value` there.
proof fn lemma_word_after_write(image: MemoryImage, after: MemoryImage, addr: int, value: u32)
    requires
        readable32(image, addr),
        after.base() == image.base(),
        after.contents() == splice(image.contents(), addr - image.base(), le32(value)),
    ensures
        readable32(after, addr),
        word_at(after, addr) == value,
{
    let off = addr - image.base();
    assert(after.bytes_at(addr as usize, 4) =~= le32(value));
    lemma_le32_roundtrip(value);
}

/// Sets or clears the disabled flag of the reference at `obj`; a null
/// object is left alone. Afterwards the reference reads back as `enabled`.
pub fn set_enabled_flags(image: &mut MemoryImage, fnv: bool, obj: usize, enabled: bool)
    requires
        obj != 0 ==> readable32(*old(image), obj + flags_off(fnv)),
    ensures
        final(image).base() == old(image).base(),
        obj == 0 ==> final(image).contents() == old(image).contents(),
        obj != 0 ==> final(image).contents() == splice(
            old(image).contents(),
            obj + flags_off(fnv) - old(image).base(),
            le32(with_enabled(word_at(*old(image), obj + flags_off(fnv)), enabled)),
        ),
        enabled_of(*final(image), fnv, obj) == enabled || obj == 0,
{
    if obj == 0 {
        return;
    }
    let off = flags_offset(fnv);
    let flags = field32(image, obj, off);
    let next = if enabled { flags & !FLAG_DISABLED } else { flags | FLAG_DISABLED };
    let ghost before = *image;
    write_field_u32(image, obj, off, next);
    proof {
        lemma_word_after_write(before, *image, obj + off, next);
        assert((flags & !2u32) & 2u32 == 0 && (flags | 2u32) & 2u32 != 0) by (bit_vector);
    }
}

/// The lock byte with bit 0 set or cleared.
pub open spec fn with_lock(b: u8, locked: bool) -> u8 {
    if locked { b | 1 } else { b & !1u8 }
}

/// Sets or clears the locked bit of the reference at `obj`; a null object
/// is left alone. Afterwards bit 0 of the lock byte reads back as `locked`.
pub fn set_lock_flags(image: &mut MemoryImage, obj: usize, locked: bool)
    requires
        obj != 0 ==> obj + OFFSET_LOCK_BYTE <= usize::MAX && old(image).covers(
            (obj + OFFSET_LOCK_BYTE) as usize,
            1,
        ),
    ensures
        final(image).base() == old(image).base(),
        obj == 0 ==> final(image).contents() == old(image).contents(),
        obj != 0 ==> final(image).contents() == splice(
            old(image).contents(),
            obj + OFFSET_LOCK_BYTE - old(image).base(),
            seq![with_lock(byte_at(*old(image), obj + OFFSET_LOCK_BYTE), locked)],
        ),
        obj != 0 ==> (byte_at(*final(image), obj + OFFSET_LOCK_BYTE) & 1 == 1) == locked,
{
    if obj == 0 {
        return;
    }
    let b = match read_field_u8(image, obj, OFFSET_LOCK_BYTE) {
        Some(v) => v,
        None => 0,
    };
    let next = if locked { b | 1 } else { b & !1u8 };
    let ghost before = *image;
    write_field_u8(image, obj, OFFSET_LOCK_BYTE, next);
    proof {
        let addr = obj + OFFSET_LOCK_BYTE;
        assert(image.bytes_at(addr as usize, 1) =~= seq![next]);
        assert((b | 1u8) & 1u8 == 1 && (b & !1u8) & 1u8 == 0) by (bit_vector);
    }
}

/// `LookupFormByID` on the classic/GOG 1.7.0.3 build.
pub const LOOKUP_FORM_FO3_GOG: usize = 0x0045_5190;
/// `LookupFormByID` on the post-2023 Steam build.
pub const LOOKUP_FORM_FO3_STEAM: usize = 0x0071_2AF0;

/// The `LookupFormByID` address of the build in `image`: the classic
/// address when its prologue (`51 8b 0d 14`) is there, else the Steam
/// address when the Steam prologue (`55 8b ec 53`) is there, else the
/// classic address.
pub open spec fn lookup_addr_of(image: MemoryImage) -> usize {
    if image.covers(LOOKUP_FORM_FO3_GOG, 4) && image.bytes_at(LOOKUP_FORM_FO3_GOG, 4)
        == seq![0x51u8, 0x8B, 0x0D, 0x14] {
        LOOKUP_FORM_FO3_GOG
    } else if image.covers(LOOKUP_FORM_FO3_STEAM, 4) && image.bytes_at(LOOKUP_FORM_FO3_STEAM, 4)
        == seq![0x55u8, 0x8B, 0xEC, 0x53] {
        LOOKUP_FORM_FO3_STEAM
    } else {
        LOOKUP_FORM_FO3_GOG
    }
}

/// Whether `image` is the post-2023 Steam build.
pub open spec fn is_steam_build(image: MemoryImage) -> bool {
    lookup_addr_of(image) == LOOKUP_FORM_FO3_STEAM
}

/// The address of `LookupFormByID` for the running build, picked by the
/// prologue found in the image; the classic address when neither matches.
pub fn fo3_lookup_addr(image: &MemoryImage) -> (r: usize)
    ensures
        r == lookup_addr_of(*image),
{
    let gog = Candidate { addr: LOOKUP_FORM_FO3_GOG, signature: vec![0x51, 0x8B, 0x0D, 0x14] };
    let steam = Candidate { addr: LOOKUP_FORM_FO3_STEAM, signature: vec![0x55, 0x8B, 0xEC, 0x53] };
    assert(gog.signature@ =~= seq![0x51u8, 0x8B, 0x0D, 0x14]);
    assert(steam.signature@ =~= seq![0x55u8, 0x8B, 0xEC, 0x53]);
    let ghost g = gog;
    let ghost st = steam;
    let cs = vec![gog, steam];
    let r = select_candidate(image, cs.as_slice(), LOOKUP_FORM_FO3_GOG);
    proof {
        let s = cs@;
        assert(s[0] == g && s[1] == st);
        assert(s.drop_first()[0] == st);
        assert(s.drop_first().drop_first() =~= Seq::<Candidate>::empty());
        reveal_with_fuel(selected, 3);
    }
    r
}

/// Whether a character separates path components (`/` or `\`).
pub open spec fn is_sep(c: char) -> bool {
    c == '/' || c == '\\'
}

/// The characters after the last separator of a path.
pub open spec fn last_component(s: Seq<char>) -> Seq<char>
    decreases s.len(),
{
    if s.len() == 0 {
        Seq::empty()
    } else if is_sep(s.last()) {
        Seq::empty()
    } else {
        last_component(s.drop_last()).push(s.last())
    }
}

/// The file name of an executable path (after the last `/` or `\`);
/// `None` when it is empty.
pub fn exe_base_name(path: &str) -> (r: Option<String>)
    ensures
        match r {
            Some(name) => name@ == last_component(path@) && name@.len() > 0,
            None => last_component(path@).len() == 0,
        },
{
    let chars = chars_of(path);
    let ghost s = path@;
    let mut start: usize = chars.len();
    assert(s.take(start as int) =~= s);
    assert(s + s.skip(start as int) =~= s);
    while start > 0 && !(chars[start - 1] == '/' || chars[start - 1] == '\\')
        invariant
            chars@ == s,
            start <= s.len(),
            last_component(s) == last_component(s.take(start as int)) + s.skip(start as int),
        decreases start,
    {
        proof {
            let t = s.take(start as int);
            assert(t.drop_last() =~= s.take(start as int - 1));
            assert(t.last() == s[start as int - 1]);
            assert(last_component(t) == last_component(t.drop_last()).push(t.last()));
            assert(last_component(t) + s.skip(start as int) =~= last_component(s.take(
                start as int - 1,
            )) + s.skip(start as int - 1));
        }
        start = start - 1;
    }
    proof {
        let t = s.take(start as int);
        if start > 0 {
            assert(t.last() == s[start as int - 1]);
        }
        assert(last_component(t) =~= Seq::<char>::empty());
        assert(last_component(s) =~= s.skip(start as int));
    }
    if start == chars.len() {
        return None;
    }
    let mut name: Vec<char> = Vec::new();
    let mut i: usize = start;
    while i < chars.len()
        invariant
            chars@ == s,
            start <= i <= s.len(),
            name@ == s.subrange(start as int, i as int),
        decreases s.len() - i,
    {
        name.push(chars[i]);
        i = i + 1;
        assert(name@ =~= s.subrange(start as int, i as int));
    }
    assert(name@ =~= s.skip(start as int));
    Some(string_of_chars(name))
}

/// Steam vtable slot of the lock-state getter (GOG slot +0xA0).
pub const STEAM_GET_LOCKED: usize = 0xFC;

/// The Steam vtable slot of a classic GOG slot: only when the running
/// build (`image`) is the Steam one, and only for the slot pairs confirmed
/// byte-identical; `None` otherwise, where callers keep the GOG slot.
pub fn steam_slot_for(image: &MemoryImage, gog_slot: usize) -> (r: Option<usize>)
    ensures
        r == (if is_steam_build(*image) && gog_slot == 0xA0 {
            Some(STEAM_GET_LOCKED)
        } else {
            None::<usize>
        }),
{
    if gog_slot == 0xA0 && fo3_lookup_addr(image) == LOOKUP_FORM_FO3_STEAM {
        Some(STEAM_GET_LOCKED)
    } else {
        None
    }
}

/// Actor value index of health.
pub const AV_HEALTH: u8 = 0x14;
/// Actor value index of action points.
pub const AV_ACTION_POINTS: u8 = 0x15;
/// Actor value index of carry weight.
pub const AV_CARRY_WEIGHT: u8 = 0x05;
/// Actor value index of damage resistance.
pub const AV_DAMAGE_RESIST: u8 = 0x29;
/// Actor value index of damage threshold (New Vegas).
pub const AV_DAMAGE_THRESHOLD: u8 = 0x2A;
/// Actor value index of the speed multiplier.
pub const AV_SPEED_MULT: u8 = 0x22;
/// Actor value index of radiation.
pub const AV_RADIATION: u8 = 0x20;
/// Actor value index of dehydration (New Vegas hardcore).
pub const AV_DEHYDRATION: u8 = 0x2B;
/// Actor value index of hunger (New Vegas hardcore).
pub const AV_HUNGER: u8 = 0x2C;
/// Actor value index of sleep deprivation (New Vegas hardcore).
pub const AV_SLEEP: u8 = 0x2D;

} // verus!

//! Memory patching primitives, as byte-level plans.
//!
//! A patch is described here as the exact bytes to write at an address, and
//! a `MemoryImage` models the bytes of a mapped region so that reads and
//! writes of patches can be stated and checked. Relative jumps and calls are the
//! 5-byte `E9`/`E8 rel32` forms whose displacement is measured from the end
//! of the instruction.
use vstd::prelude::*;
use crate::bytes::{le16, le32, push_le32};

verus! {

/// Opcode of a relative JMP.
pub const JMP_OPCODE: u8 = 0xE9;
/// Opcode of a relative CALL.
pub const CALL_OPCODE: u8 = 0xE8;
/// Length of a relative JMP/CALL instruction.
pub const REL_SIZE: usize = 5;

/// One write into the game image: `bytes` at `addr`.
#[derive(Debug, Clone, PartialEq, Eq)]
pub struct PatchOp {
    pub addr: usize,
    pub bytes: Vec<u8>,
}

impl PatchOp {
    pub open spec fn view_op(self) -> (usize, Seq<u8>) {
        (self.addr, self.bytes@)
    }
}

/// The 32-bit displacement of a relative branch from `from` to `to`:
/// `to - (from + 5)` in two's complement.
pub open spec fn rel_disp(from: usize, to: usize) -> u32 {
    ((to as int - from as int - 5) % 4294967296) as u32
}

/// Bytes of a relative branch with the given opcode.
pub open spec fn rel_bytes(opcode: u8, from: usize, to: usize) -> Seq<u8> {
    seq![opcode] + le32(rel_disp(from, to))
}

/// The displacement of a relative branch from `from` to `to`.
pub fn rel32(from: usize, to: usize) -> (r: u32)
    ensures
        r == rel_disp(from, to),
{
    let f: u64 = (from as u64) % 4294967296;
    let t: u64 = (to as u64) % 4294967296;
    let d: u64 = (t + 4294967296 * 2 - f - 5) % 4294967296;
    proof {
        let x = to as int - from as int - 5;
        assert(d as int == (t as int + 4294967296 * 2 - f as int - 5) % 4294967296);
        assert((to as int) % 4294967296 == t as int);
        assert((from as int) % 4294967296 == f as int);
        vstd::arithmetic::div_mod::lemma_mod_sub_multiples_vanish(x, 4294967296);
        assert(((t as int + 4294967296 * 2 - f as int - 5) - x) % 4294967296 == 0) by {
            vstd::arithmetic::div_mod::lemma_fundamental_div_mod(to as int, 4294967296);
            vstd::arithmetic::div_mod::lemma_fundamental_div_mod(from as int, 4294967296);
            let q = 2 - (to as int) / 4294967296 + (from as int) / 4294967296;
            assert((t as int + 4294967296 * 2 - f as int - 5) - x == 4294967296 * q) by (
            nonlinear_arith)
                requires
                    to as int == 4294967296 * ((to as int) / 4294967296) + t as int,
                    from as int == 4294967296 * ((from as int) / 4294967296) + f as int,
                    x == to as int - from as int - 5,
                    q == 2 - (to as int) / 4294967296 + (from as int) / 4294967296,
            ;
            vstd::arithmetic::div_mod::lemma_mod_multiples_basic(q, 4294967296);
        }
        vstd::arithmetic::div_mod::lemma_mod_equivalence(
            t as int + 4294967296 * 2 - f as int - 5,
            x,
            4294967296,
        );
    }
    d as u32
}

/// The write that plants a relative JMP at `from` targeting `to`.
pub fn write_rel_jump(from: usize, to: usize) -> (r: PatchOp)
    ensures
        r.view_op() == (from, rel_bytes(JMP_OPCODE, from, to)),
{
    let mut bytes: Vec<u8> = Vec::new();
    bytes.push(JMP_OPCODE);
    push_le32(&mut bytes, rel32(from, to));
    PatchOp { addr: from, bytes }
}

/// The write that plants a relative CALL at `from` targeting `to`.
pub fn write_rel_call(from: usize, to: usize) -> (r: PatchOp)
    ensures
        r.view_op() == (from, rel_bytes(CALL_OPCODE, from, to)),
{
    let mut bytes: Vec<u8> = Vec::new();
    bytes.push(CALL_OPCODE);
    push_le32(&mut bytes, rel32(from, to));
    PatchOp { addr: from, bytes }
}

/// A planted branch lands on its target: the end of the instruction plus
/// the displacement equals the target modulo 2^32.
pub proof fn law_rel_branch_lands_on_target(from: usize, to: usize)
    ensures
        (from as int + 5 + rel_disp(from, to) as int) % 4294967296 == (to as int) % 4294967296,
{
    let x = to as int - from as int - 5;
    vstd::arithmetic::div_mod::lemma_fundamental_div_mod(x, 4294967296);
    let q = x / 4294967296;
    assert(rel_disp(from, to) as int == x % 4294967296);
    assert(from as int + 5 + rel_disp(from, to) as int == to as int - 4294967296 * q);
    vstd::arithmetic::div_mod::lemma_mod_sub_multiples_vanish(to as int, 4294967296);
    assert((to as int - 4294967296 * q) % 4294967296 == (to as int) % 4294967296) by {
        vstd::arithmetic::div_mod::lemma_mod_multiples_vanish(-q, to as int, 4294967296);
        assert(4294967296 * (-q) + to as int == to as int - 4294967296 * q) by (nonlinear_arith);
    }
}

/// The bytes of a mapped memory region starting at `base`.
#[derive(Debug, Clone)]
pub struct MemoryImage {
    base: usize,
    bytes: Vec<u8>,
}

/// Whether `[addr, addr + len)` lies inside a region of `size` bytes at `base`.
pub open spec fn in_region(base: usize, size: nat, addr: usize, len: nat) -> bool {
    base <= addr && addr - base + len <= size
}

/// `s` with `data` written over it from offset `off`.
pub open spec fn splice(s: Seq<u8>, off: int, data: Seq<u8>) -> Seq<u8> {
    s.take(off) + data + s.skip(off + data.len())
}

impl MemoryImage {
    /// First address of the region.
    pub closed spec fn base(&self) -> usize {
        self.base
    }

    /// The bytes of the region, in address order.
    pub closed spec fn contents(&self) -> Seq<u8> {
        self.bytes@
    }

    /// Whether `[addr, addr + len)` is mapped by this region.
    pub open spec fn covers(&self, addr: usize, len: nat) -> bool {
        in_region(self.base(), self.contents().len(), addr, len)
    }

    /// The bytes at `[addr, addr + len)`, for a covered range.
    pub open spec fn bytes_at(&self, addr: usize, len: nat) -> Seq<u8> {
        self.contents().subrange(addr - self.base(), addr - self.base() + len)
    }

    /// A region at `base` holding `bytes`.
    pub fn new(base: usize, bytes: Vec<u8>) -> (r: MemoryImage)
        ensures
            r.base() == base,
            r.contents() == bytes@,
    {
        MemoryImage { base, bytes }
    }

    /// First address of the region.
    pub fn base_addr(&self) -> (r: usize)
        ensures
            r == self.base(),
    {
        self.base
    }

    /// Size of the region in bytes.
    pub fn size(&self) -> (r: usize)
        ensures
            r == self.contents().len(),
    {
        self.bytes.len()
    }

    /// The bytes at `[addr, addr + len)`, or `None` when the range is not
    /// inside the region.
    pub fn read(&self, addr: usize, len: usize) -> (r: Option<Vec<u8>>)
        ensures
            match r {
                Some(v) => self.covers(addr, len as nat) && v@ == self.bytes_at(addr, len as nat),
                None => !self.covers(addr, len as nat),
            },
    {
        if addr < self.base || addr - self.base > self.bytes.len() || len > self.bytes.len() - (
        addr - self.base) {
            return None;
        }
        let off = addr - self.base;
        Some(copy_vec_range(&self.bytes, off, off + len))
    }

    /// Writes `op` into the region. Returns `false`, changing nothing, when
    /// the write does not fit inside the region.
    pub fn write(&mut self, op: &PatchOp) -> (ok: bool)
        ensures
            ok == old(self).covers(op.addr, op.bytes@.len()),
            final(self).base() == old(self).base(),
            ok ==> final(self).contents() == splice(
                old(self).contents(),
                op.addr - old(self).base(),
                op.bytes@,
            ),
            !ok ==> final(self).contents() == old(self).contents(),
    {
        let len = op.bytes.len();
        if op.addr < self.base || op.addr - self.base > self.bytes.len() || len > self.bytes.len()
            - (op.addr - self.base) {
            return false;
        }
        let off = op.addr - self.base;
        let ghost before = self.bytes@;
        let mut i: usize = 0;
        while i < len
            invariant
                len == op.bytes@.len(),
                off + len <= self.bytes@.len(),
                off + len <= usize::MAX,
                self.bytes@.len() == before.len(),
                self.base == old(self).base,
                before == old(self).bytes@,
                i <= len,
                forall|k: int| 0 <= k < off ==> self.bytes@[k] == before[k],
                forall|k: int| off <= k < off + i ==> self.bytes@[k] == op.bytes@[k - off],
                forall|k: int| off + len <= k < before.len() ==> self.bytes@[k] == before[k],
            decreases len - i,
        {
            self.bytes.set(off + i, op.bytes[i]);
            i = i + 1;
        }
        assert(self.bytes@ =~= splice(before, off as int, op.bytes@));
        true
    }
}

/// Writes one byte at a mapped address of the image (write protection is
/// lifted around the write in the game process).
pub fn safe_write8(image: &mut MemoryImage, addr: usize, value: u8)
    requires
        old(image).covers(addr, 1),
    ensures
        final(image).base() == old(image).base(),
        final(image).contents() == splice(old(image).contents(), addr - old(image).base(), seq![value]),
{
    let bytes = vec![value];
    assert(bytes@ =~= seq![value]);
    let _ = image.write(&PatchOp { addr, bytes });
}

/// Writes a little-endian 16-bit value at a mapped address.
pub fn safe_write16(image: &mut MemoryImage, addr: usize, value: u16)
    requires
        old(image).covers(addr, 2),
    ensures
        final(image).base() == old(image).base(),
        final(image).contents() == splice(old(image).contents(), addr - old(image).base(), le16(value)),
{
    let mut bytes: Vec<u8> = Vec::new();
    crate::bytes::push_le16(&mut bytes, value);
    assert(bytes@ =~= le16(value));
    let _ = image.write(&PatchOp { addr, bytes });
}

/// Writes a little-endian 32-bit value at a mapped address.
pub fn safe_write32(image: &mut MemoryImage, addr: usize, value: u32)
    requires
        old(image).covers(addr, 4),
    ensures
        final(image).base() == old(image).base(),
        final(image).contents() == splice(old(image).contents(), addr - old(image).base(), le32(value)),
{
    let mut bytes: Vec<u8> = Vec::new();
    crate::bytes::push_le32(&mut bytes, value);
    assert(bytes@ =~= le32(value));
    let _ = image.write(&PatchOp { addr, bytes });
}

/// Writes a byte buffer at a mapped address.
pub fn safe_write_buf(image: &mut MemoryImage, addr: usize, data: &[u8])
    requires
        old(image).covers(addr, data@.len()),
    ensures
        final(image).base() == old(image).base(),
        final(image).contents() == splice(old(image).contents(), addr - old(image).base(), data@),
{
    let bytes = crate::bytes::copy_range(data, 0, data.len());
    assert(bytes@ =~= data@);
    let _ = image.write(&PatchOp { addr, bytes });
}

/// An owned copy of `v[from..to]`.
fn copy_vec_range(v: &Vec<u8>, from: usize, to: usize) -> (r: Vec<u8>)
    requires
        from <= to <= v.len(),
    ensures
        r@ == v@.subrange(from as int, to as int),
{
    crate::bytes::copy_range(v.as_slice(), from, to)
}

/// Write protection lifted over `[addr, addr + size)` for the duration of a
/// write. Hosts without page protection need no change, so building one
/// always succeeds.
#[derive(Debug, Clone, Copy, PartialEq, Eq)]
pub struct MemoryProtect {
    addr: usize,
    size: usize,
}

impl MemoryProtect {
    /// The guarded range.
    pub closed spec fn range(&self) -> (usize, usize) {
        (self.addr, self.size)
    }

    /// Lifts protection over `[addr, addr + size)`.
    pub fn new(addr: usize, size: usize) -> (r: Option<MemoryProtect>)
        ensures
            r is Some,
            r.unwrap().range() == (addr, size),
    {
        Some(MemoryProtect { addr, size })
    }
}

/// A save/restore byte patch: the bytes it writes and the bytes that were
/// there before.
#[derive(Debug, Clone, PartialEq, Eq)]
pub struct Patch {
    addr: usize,
    original: Vec<u8>,
    patch_data: Vec<u8>,
}

impl Patch {
    /// Where the patch writes.
    pub closed spec fn target(&self) -> usize {
        self.addr
    }

    /// The bytes found at the target when the patch was recorded.
    pub closed spec fn saved(&self) -> Seq<u8> {
        self.original@
    }

    /// The bytes the patch writes.
    pub closed spec fn data(&self) -> Seq<u8> {
        self.patch_data@
    }

    /// Records a patch of `data` at `addr`, saving the bytes the image holds
    /// there now; `None` when the range is not inside the image.
    pub fn new(image: &MemoryImage, addr: usize, data: &[u8]) -> (r: Option<Patch>)
        ensures
            r is Some <==> image.covers(addr, data@.len()),
            r matches Some(p) ==> p.target() == addr && p.data() == data@ && p.saved()
                == image.bytes_at(addr, data@.len()),
    {
        match image.read(addr, data.len()) {
            Some(original) => {
                let patch_data = crate::bytes::copy_range(data, 0, data.len());
                assert(patch_data@ =~= data@);
                Some(Patch { addr, original, patch_data })
            },
            None => None,
        }
    }

    /// The write that applies the patch.
    pub fn apply(&self) -> (r: PatchOp)
        ensures
            r.view_op() == (self.target(), self.data()),
    {
        PatchOp { addr: self.addr, bytes: self.patch_data.clone() }
    }

    /// The write that restores the saved bytes.
    pub fn restore(&self) -> (r: PatchOp)
        ensures
            r.view_op() == (self.target(), self.saved()),
    {
        PatchOp { addr: self.addr, bytes: self.original.clone() }
    }
}

/// Applying a recorded patch puts its bytes at its target; restoring it
/// afterwards gives back exactly the image it was recorded on.
pub proof fn law_restore_undoes_apply(contents: Seq<u8>, base: usize, p: Patch)
    requires
        in_region(base, contents.len(), p.target(), p.data().len()),
        p.saved() == contents.subrange(
            p.target() - base,
            p.target() - base + p.data().len(),
        ),
    ensures
        splice(splice(contents, p.target() - base, p.data()), p.target() - base, p.saved())
            == contents,
        splice(contents, p.target() - base, p.data()).subrange(
            p.target() - base,
            p.target() - base + p.data().len(),
        ) == p.data(),
{
    let off = p.target() - base;
    let applied = splice(contents, off, p.data());
    assert(applied.len() == contents.len());
    assert(splice(applied, off, p.saved()) =~= contents);
    assert(applied.subrange(off, off + p.data().len()) =~= p.data());
}

} // verus!

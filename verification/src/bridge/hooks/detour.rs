//! Trampoline-based function detour.
//!
//! Installing writes a 5-byte JMP at the target's entry to the hook. The
//! trampoline holds the target's first 5 bytes followed by a JMP back to
//! `target + 5`, so the hook can call through to the hooked function.
use vstd::prelude::*;
use crate::bridge::hooks::memory::{
    MemoryImage, PatchOp, splice, rel_bytes, write_rel_jump, JMP_OPCODE, REL_SIZE,
};

verus! {

/// Bytes of a trampoline region: the saved prologue and a JMP back.
pub const TRAMPOLINE_SIZE: usize = 10;

/// A function detour: where it hooks, where to, the prologue it replaces
/// and whether it is installed.
#[derive(Debug, Clone)]
pub struct Detour {
    target: usize,
    hook: usize,
    original: Vec<u8>,
    trampoline: usize,
    installed: bool,
}

/// Trampoline contents for a target whose prologue is `prologue`, placed at
/// `trampoline`.
pub open spec fn trampoline_bytes(prologue: Seq<u8>, target: usize, trampoline: usize) -> Seq<u8> {
    prologue + rel_bytes(JMP_OPCODE, (trampoline + 5) as usize, (target + 5) as usize)
}

impl Detour {
    /// Address of the hooked function.
    pub closed spec fn target(&self) -> usize {
        self.target
    }

    /// Address of the replacement function.
    pub closed spec fn hook(&self) -> usize {
        self.hook
    }

    /// The target's saved first five bytes.
    pub closed spec fn saved(&self) -> Seq<u8> {
        self.original@
    }

    /// Address of the trampoline region.
    pub closed spec fn trampoline(&self) -> usize {
        self.trampoline
    }

    /// Whether the JMP to the hook is written.
    pub closed spec fn installed(&self) -> bool {
        self.installed
    }

    /// Builds a detour of `target` to `hook`, not yet installed: saves the
    /// target's first five bytes and writes the trampoline into the
    /// executable region at `trampoline`. `None`, with nothing written, when
    /// the target prologue or the trampoline region is not mapped.
    pub fn new(image: &mut MemoryImage, target: usize, hook: usize, trampoline: usize) -> (r: Option<Detour>)
        ensures
            final(image).base() == old(image).base(),
            r is Some <==> (old(image).covers(target, 5) && old(image).covers(
                trampoline,
                TRAMPOLINE_SIZE as nat,
            ) && trampoline + 5 <= usize::MAX && target + 5 <= usize::MAX),
            r is None ==> final(image).contents() == old(image).contents(),
            r matches Some(d) ==> {
                &&& d.target() == target
                &&& d.hook() == hook
                &&& d.trampoline() == trampoline
                &&& !d.installed()
                &&& d.saved() == old(image).bytes_at(target, 5)
                &&& final(image).contents() == splice(
                    old(image).contents(),
                    trampoline - old(image).base(),
                    trampoline_bytes(d.saved(), target, trampoline),
                )
            },
    {
        if trampoline > usize::MAX - 5 || target > usize::MAX - 5 {
            return None;
        }
        let original = match image.read(target, REL_SIZE) {
            Some(o) => o,
            None => {
                return None;
            },
        };
        if image.read(trampoline, TRAMPOLINE_SIZE).is_none() {
            return None;
        }
        let back = write_rel_jump(trampoline + 5, target + 5);
        let mut bytes = crate::bytes::copy_range(original.as_slice(), 0, original.len());
        crate::bytes::push_all(&mut bytes, back.bytes.as_slice());
        assert(bytes@ =~= trampoline_bytes(original@, target, trampoline));
        let op = PatchOp { addr: trampoline, bytes };
        let _ = image.write(&op);
        Some(Detour { target, hook, original, trampoline, installed: false })
    }

    /// Whether the detour is installed.
    pub fn is_installed(&self) -> (r: bool)
        ensures
            r == self.installed(),
    {
        self.installed
    }

    /// The saved prologue of the target.
    pub fn original(&self) -> (r: &Vec<u8>)
        ensures
            r@ == self.saved(),
    {
        &self.original
    }

    /// Writes the JMP from the target to the hook; does nothing when
    /// already installed.
    pub fn install(&mut self, image: &mut MemoryImage)
        requires
            old(image).covers(old(self).target(), 5),
        ensures
            final(self).installed(),
            final(self).target() == old(self).target(),
            final(self).hook() == old(self).hook(),
            final(self).saved() == old(self).saved(),
            final(self).trampoline() == old(self).trampoline(),
            final(image).base() == old(image).base(),
            old(self).installed() ==> final(image).contents() == old(image).contents(),
            !old(self).installed() ==> final(image).contents() == splice(
                old(image).contents(),
                old(self).target() - old(image).base(),
                rel_bytes(JMP_OPCODE, old(self).target(), old(self).hook()),
            ),
    {
        if self.installed {
            return;
        }
        let op = write_rel_jump(self.target, self.hook);
        let _ = image.write(&op);
        self.installed = true;
    }

    /// Restores the saved prologue; does nothing when not installed.
    pub fn uninstall(&mut self, image: &mut MemoryImage)
        requires
            old(image).covers(old(self).target(), old(self).saved().len()),
        ensures
            !final(self).installed(),
            final(self).target() == old(self).target(),
            final(self).hook() == old(self).hook(),
            final(self).saved() == old(self).saved(),
            final(self).trampoline() == old(self).trampoline(),
            final(image).base() == old(image).base(),
            !old(self).installed() ==> final(image).contents() == old(image).contents(),
            old(self).installed() ==> final(image).contents() == splice(
                old(image).contents(),
                old(self).target() - old(image).base(),
                old(self).saved(),
            ),
    {
        if !self.installed {
            return;
        }
        let bytes = crate::bytes::copy_range(self.original.as_slice(), 0, self.original.len());
        assert(bytes@ =~= self.original@);
        let op = PatchOp { addr: self.target, bytes };
        let _ = image.write(&op);
        self.installed = false;
    }

    /// Address of the trampoline, which runs the hooked function.
    pub fn trampoline_addr(&self) -> (r: usize)
        ensures
            r == self.trampoline(),
    {
        self.trampoline
    }
}

/// Installing a detour and uninstalling it gives back the target bytes it
/// was built on: the JMP covers exactly the saved five bytes.
pub proof fn law_install_uninstall_restores(c: Seq<u8>, off: int, saved: Seq<u8>, jmp: Seq<u8>)
    requires
        0 <= off,
        off + 5 <= c.len(),
        saved.len() == 5,
        jmp.len() == 5,
        saved == c.subrange(off, off + 5),
    ensures
        splice(splice(c, off, jmp), off, saved) == c,
{
    assert(splice(splice(c, off, jmp), off, saved) =~= c);
}

} // verus!

//! Lazy, cached resolution of engine addresses and selection among
//! per-build candidates by prologue signature.
use vstd::prelude::*;
use crate::bridge::hooks::memory::MemoryImage;

verus! {

/// A candidate address with the first bytes its function must start with.
#[derive(Debug, Clone)]
pub struct Candidate {
    pub addr: usize,
    /// Expected prologue bytes.
    pub signature: Vec<u8>,
}

/// Whether the image holds `c`'s signature at `c`'s address.
pub open spec fn candidate_matches(image: MemoryImage, c: Candidate) -> bool {
    image.covers(c.addr, c.signature@.len()) && image.bytes_at(c.addr, c.signature@.len())
        == c.signature@
}

/// The address of the first matching candidate, or `fallback`.
pub open spec fn selected(image: MemoryImage, cs: Seq<Candidate>, fallback: usize) -> usize
    decreases cs.len(),
{
    if cs.len() == 0 {
        fallback
    } else if candidate_matches(image, cs[0]) {
        cs[0].addr
    } else {
        selected(image, cs.drop_first(), fallback)
    }
}

/// Whether the image holds `sig` at `addr`.
fn signature_at(image: &MemoryImage, addr: usize, sig: &Vec<u8>) -> (r: bool)
    ensures
        r == (image.covers(addr, sig@.len()) && image.bytes_at(addr, sig@.len()) == sig@),
{
    match image.read(addr, sig.len()) {
        Some(found) => {
            let mut i: usize = 0;
            while i < sig.len()
                invariant
                    found@.len() == sig@.len(),
                    image.covers(addr, sig@.len()),
                    found@ == image.bytes_at(addr, sig@.len()),
                    i <= sig@.len(),
                    forall|j: int| 0 <= j < i ==> found@[j] == sig@[j],
                decreases sig@.len() - i,
            {
                if found[i] != sig[i] {
                    assert(found@[i as int] != sig@[i as int]);
                    return false;
                }
                i = i + 1;
            }
            assert(found@ =~= sig@);
            true
        },
        None => false,
    }
}

/// Picks the first candidate whose prologue matches the image; `fallback`
/// when none does (an unknown build).
pub fn select_candidate(image: &MemoryImage, candidates: &[Candidate], fallback: usize) -> (r: usize)
    ensures
        r == selected(*image, candidates@, fallback),
{
    let mut i: usize = 0;
    assert(candidates@.skip(0) =~= candidates@);
    while i < candidates.len()
        invariant
            i <= candidates@.len(),
            selected(*image, candidates@, fallback) == selected(
                *image,
                candidates@.skip(i as int),
                fallback,
            ),
        decreases candidates@.len() - i,
    {
        let c = &candidates[i];
        assert(candidates@.skip(i as int)[0] == candidates@[i as int]);
        if signature_at(image, c.addr, &c.signature) {
            return c.addr;
        }
        assert(candidates@.skip(i as int).drop_first() =~= candidates@.skip(i as int + 1));
        i = i + 1;
    }
    assert(candidates@.skip(i as int) =~= Seq::<Candidate>::empty());
    fallback
}

/// A lazily resolved, cached address: the resolver runs on the first `get`
/// only; later calls serve the cached value.
pub struct AutoPtr<F: Fn() -> usize> {
    addr: Option<usize>,
    resolve: F,
}

impl<F: Fn() -> usize> AutoPtr<F> {
    /// The cached address, once resolved.
    pub closed spec fn cached(&self) -> Option<usize> {
        self.addr
    }

    /// The resolver.
    pub closed spec fn resolver(&self) -> F {
        self.resolve
    }

    /// An unresolved pointer with its resolver.
    pub fn new(resolve: F) -> (r: Self)
        ensures
            r.cached() is None,
            r.resolver() == resolve,
    {
        AutoPtr { addr: None, resolve }
    }

    /// The address: the cached one, or (on the first call) the resolver's
    /// answer, which is then cached.
    pub fn get(&mut self) -> (r: usize)
        requires
            old(self).cached() is None ==> old(self).resolver().requires(()),
        ensures
            final(self).cached() == Some(r),
            final(self).resolver() == old(self).resolver(),
            match old(self).cached() {
                Some(a) => r == a,
                None => old(self).resolver().ensures((), r),
            },
    {
        match self.addr {
            Some(a) => a,
            None => {
                let a = (self.resolve)();
                self.addr = Some(a);
                a
            },
        }
    }
}

} // verus!

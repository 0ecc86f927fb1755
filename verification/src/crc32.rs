//! IEEE CRC-32 (zlib-compatible, reflected polynomial 0xEDB88320) for
//! mod-file verification: both sides of the connection hash the raw file
//! bytes with this one definition.
use vstd::prelude::*;

verus! {

/// The reflected IEEE polynomial.
pub const CRC32_POLY: u32 = 0xEDB8_8320;

/// One bit step of the reflected CRC register.
pub open spec fn crc_step(c: u32) -> u32 {
    (c >> 1u32) ^ (if c & 1u32 == 1u32 { CRC32_POLY } else { 0u32 })
}

/// `k` bit steps.
pub open spec fn crc_steps(c: u32, k: nat) -> u32
    decreases k,
{
    if k == 0 {
        c
    } else {
        crc_steps(crc_step(c), (k - 1) as nat)
    }
}

/// The register after absorbing one byte.
pub open spec fn crc_byte(c: u32, b: u8) -> u32 {
    crc_steps(c ^ (b as u32), 8)
}

/// The register after absorbing every byte of `data`, front to back.
pub open spec fn crc_fold(c: u32, data: Seq<u8>) -> u32
    decreases data.len(),
{
    if data.len() == 0 {
        c
    } else {
        crc_fold(crc_byte(c, data[0]), data.drop_first())
    }
}

/// CRC-32 of a byte sequence: start from all ones, absorb, complement.
pub open spec fn crc32_of(data: Seq<u8>) -> u32 {
    !crc_fold(0xFFFF_FFFFu32, data)
}

/// IEEE CRC-32 of a byte slice.
pub fn crc32(data: &[u8]) -> (r: u32)
    ensures
        r == crc32_of(data@),
{
    let mut crc: u32 = 0xFFFF_FFFF;
    let mut i: usize = 0;
    assert(data@.skip(0) =~= data@);
    while i < data.len()
        invariant
            i <= data.len(),
            crc_fold(crc, data@.skip(i as int)) == crc_fold(0xFFFF_FFFFu32, data@),
        decreases data.len() - i,
    {
        let ghost start = crc;
        crc = crc ^ (data[i] as u32);
        let ghost mixed = crc;
        let mut k: u32 = 0;
        while k < 8
            invariant
                k <= 8,
                crc_steps(crc, (8 - k) as nat) == crc_steps(mixed, 8),
            decreases 8 - k,
        {
            let c = crc;
            let mask: u32 = if c & 1 == 1 { 0xFFFF_FFFF } else { 0 };
            crc = (c >> 1) ^ (CRC32_POLY & mask);
            assert(crc == crc_step(c)) by (bit_vector)
                requires
                    mask == (if c & 1u32 == 1u32 { 0xFFFF_FFFFu32 } else { 0u32 }),
                    crc == (c >> 1u32) ^ (0xEDB8_8320u32 & mask),
            ;
            k = k + 1;
        }
        assert(crc == crc_byte(start, data@[i as int]));
        assert(data@.skip(i as int).drop_first() =~= data@.skip(i + 1));
        i = i + 1;
    }
    assert(data@.skip(i as int) =~= Seq::<u8>::empty());
    !crc
}

/// The CRC of no bytes is zero.
pub proof fn law_crc32_empty()
    ensures
        crc32_of(Seq::<u8>::empty()) == 0,
{
    assert(!0xFFFF_FFFFu32 == 0u32) by (bit_vector);
}

/// Hashing a concatenation continues from the register of the first part:
/// the streaming (chunked) computation equals the one-shot computation.
pub proof fn law_crc_fold_concat(c: u32, a: Seq<u8>, b: Seq<u8>)
    ensures
        crc_fold(c, a + b) == crc_fold(crc_fold(c, a), b),
    decreases a.len(),
{
    if a.len() == 0 {
        assert(a + b =~= b);
    } else {
        assert((a + b).drop_first() =~= a.drop_first() + b);
        law_crc_fold_concat(crc_byte(c, a[0]), a.drop_first(), b);
    }
}

} // verus!

//! The bit-manipulation intrinsics of `bitintr` that the decoders use.

use vstd::prelude::*;
use bitintr::{Bextr, Pext};

verus! {

/// Bits `start .. start + length` of `value`, moved down to bit 0.
pub open spec fn field32(value: u32, start: u32, length: u32) -> u32 {
    (value >> start) & (((1u32 << length) - 1) as u32)
}

/// Bits `start .. start + length` of a halfword, moved down to bit 0.
pub open spec fn field16(value: u16, start: u16, length: u16) -> u16 {
    (value >> start) & (((1u16 << length) - 1) as u16)
}

/// The bits of `value` at the positions set in `mask`, looking at the low `n` positions,
/// gathered in order (lowest first) into the low bits of the result.
pub open spec fn gather(value: u32, mask: u32, n: nat) -> u32
    decreases n,
{
    if n == 0 {
        0
    } else {
        let rest = gather(value >> 1u32, mask >> 1u32, (n - 1) as nat);
        if mask & 1 == 1 {
            (rest << 1u32) | (value & 1)
        } else {
            rest
        }
    }
}

/// Parallel bit extract: the bits of `value` selected by `mask`, packed into the low bits.
pub open spec fn pext_spec(value: u32, mask: u32) -> u32 {
    gather(value, mask, 32)
}

/// A field of `n` bits is below `2^n`.
pub proof fn lemma_field32_bounds(value: u32, start: u32)
    by (bit_vector)
    requires
        start < 32,
    ensures
        field32(value, start, 1) < 2,
        field32(value, start, 2) < 4,
        field32(value, start, 3) < 8,
        field32(value, start, 4) < 16,
        field32(value, start, 5) < 32,
        field32(value, start, 8) < 256,
        field32(value, start, 12) < 4096,
        field32(value, start, 20) < 0x100000,
        field32(value, start, 24) < 0x1000000,
{
}

/// A halfword field of `n` bits is below `2^n`.
pub proof fn lemma_field16_bounds(value: u16, start: u16)
    by (bit_vector)
    requires
        start < 16,
    ensures
        field16(value, start, 2) < 4,
        field16(value, start, 3) < 8,
        field16(value, start, 5) < 32,
{
}

/// `Bextr::bextr` on `u32`: the contract claims the field of `length` bits at `start`,
/// which is what the crate computes (in software as `(value >> start) & ((1 << length) - 1)`,
/// or with the BEXTR instruction) for the `start` and `length` below 32 admitted here.
#[verifier::external_body]
pub(crate) fn bextr32(value: u32, start: u32, length: u32) -> (r: u32)
    requires
        start < 32,
        length < 32,
    ensures
        r == field32(value, start, length),
{
    value.bextr(start, length)
}

/// `Bextr::bextr` on `u16`: the contract claims the field of `length` bits at `start`, as
/// the crate computes it (`(value >> start) & ((1 << length) - 1)`) for the `start` and
/// `length` below 16 admitted here.
#[verifier::external_body]
pub(crate) fn bextr16(value: u16, start: u16, length: u16) -> (r: u16)
    requires
        start < 16,
        length < 16,
    ensures
        r == field16(value, start, length),
{
    value.bextr(start, length)
}

/// `Pext::pext` on `u32`: the contract claims the documented parallel bit extract, the
/// bits of `value` where `mask` is set gathered into the low bits in order. The crate's
/// portable path doubles its output bit once per set bit of `mask`, which overflows when
/// all 32 bits are set, so a full mask is left out.
#[verifier::external_body]
pub(crate) fn pext32(value: u32, mask: u32) -> (r: u32)
    requires
        mask != u32::MAX,
    ensures
        r == pext_spec(value, mask),
{
    value.pext(mask)
}

} // verus!

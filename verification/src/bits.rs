//! Single-byte bit helpers shared by the memory-mapped register code.

use vstd::prelude::*;

verus! {

/// The byte with bit `n` set to `value` and every other bit clear.
pub open spec fn bit_spec(value: bool, n: u8) -> u8 {
    if value { 1u8 << n } else { 0u8 }
}

/// Whether bit `n` of `value` is set.
pub open spec fn test_spec(value: u8, n: u8) -> bool {
    value & (1u8 << n) != 0
}

/// The byte whose low `n` bits are set and whose other bits are clear.
pub open spec fn mask_spec(n: u8) -> u8 {
    ((1u16 << n) - 1) as u8
}

/// Return an integer with the passed bit 1 and the remaining bits 0
pub fn bit(value: bool, n: u8) -> (r: u8)
    requires
        n < 8,
    ensures
        r == bit_spec(value, n),
{
    if value {
        1u8 << n
    } else {
        assert(0u8 << n == 0u8) by (bit_vector);
        0u8 << n
    }
}

/// Returns the boolean value of the `n`th bit from `value`
pub fn test(value: u8, n: u8) -> (r: bool)
    requires
        n < 8,
    ensures
        r == test_spec(value, n),
{
    (value & (1u8 << n)) != 0
}

/// Returns an `n` bit integer with all bits set to 1
pub fn mask(n: u8) -> (r: u8)
    requires
        n <= 8,
    ensures
        r == mask_spec(n),
{
    let mut r: u8 = 0;
    let mut i: u8 = 0;
    assert(mask_spec(0) == 0) by (bit_vector);
    while i < n
        invariant
            i <= n <= 8,
            r == mask_spec(i),
        decreases n - i,
    {
        let b = bit(true, i);
        assert((mask_spec(i) | (1u8 << i)) == mask_spec((i + 1) as u8)) by (bit_vector)
            requires
                i < 8,
        ;
        r = r | b;
        i = i + 1;
    }
    r
}

/// `bit` followed by `test` at the same position gives the flag back, and any other
/// position reads as clear.
pub proof fn lemma_bit_test(value: bool, n: u8, m: u8)
    requires
        n < 8,
        m < 8,
    ensures
        test_spec(bit_spec(value, n), m) == (value && n == m),
{
    if value {
        assert(((1u8 << n) & (1u8 << m) != 0) == (n == m)) by (bit_vector)
            requires
                n < 8,
                m < 8,
        ;
    } else {
        assert(0u8 & (1u8 << m) == 0) by (bit_vector);
    }
}

/// A buffer of `n` bytes, each equal to `value`.
pub fn filled(n: usize, value: u8) -> (v: Vec<u8>)
    ensures
        v@ == Seq::new(n as nat, |i: int| value),
{
    let mut v: Vec<u8> = Vec::new();
    let mut i: usize = 0;
    while i < n
        invariant
            i <= n,
            v@ == Seq::new(i as nat, |j: int| value),
        decreases n - i,
    {
        v.push(value);
        i = i + 1;
        assert(v@ =~= Seq::new(i as nat, |j: int| value));
    }
    v
}

/// Masking never produces more than the mask.
pub proof fn lemma_and_bound()
    by (bit_vector)
    ensures
        forall|a: u8, b: u8| #[trigger] (a & b) <= b,
        forall|a: u16, b: u16| #[trigger] (a & b) <= b,
        forall|a: u32, b: u32| #[trigger] (a & b) <= b,
{
}

/// Masking never produces more than the mask (word-sized).
pub proof fn lemma_and_bound_usize()
    by (bit_vector)
    ensures
        forall|a: usize, b: usize| #[trigger] (a & b) <= b,
{
}

/// A two-bit pixel built from two tile bit-planes is at most 3.
pub proof fn lemma_pixel_bound()
    by (bit_vector)
    ensures
        forall|a: u8, b: u8| #[trigger] ((a & 2) | (b & 1)) <= 3,
{
}

/// Shifting right never increases a value.
pub proof fn lemma_shr_bound()
    by (bit_vector)
    ensures
        forall|a: u16, s: u8| #[trigger] (a >> s) <= a,
        forall|a: u8, s: u8| #[trigger] (a >> s) <= a,
{
}

} // verus!

//! Rounding offsets up to an alignment.

use vstd::prelude::*;
use vstd::arithmetic::power2;
use vstd::arithmetic::div_mod;

verus! {

/// The least multiple of `align` that is not below `offset`.
pub open spec fn aligned_up(offset: nat, align: nat) -> nat
    recommends
        align > 0,
{
    ((offset + align - 1) / align as int * align) as nat
}

/// What [`aligned_up`] promises: a multiple of `align`, not below `offset`,
/// and not above any other such multiple.
pub proof fn aligned_up_is_least(offset: nat, align: nat, other: nat)
    requires
        align > 0,
    ensures
        aligned_up(offset, align) % align == 0,
        offset <= aligned_up(offset, align) < offset + align,
        other % align == 0 && other >= offset ==> aligned_up(offset, align) <= other,
{
    let q = (offset + align - 1) / align as int;
    div_mod::lemma_fundamental_div_mod(offset + align - 1, align as int);
    let r = (offset + align - 1) % align as int;
    assert(offset + align - 1 == align * q + r);
    assert(align * q == q * align) by (nonlinear_arith);
    assert(q >= 0) by (nonlinear_arith)
        requires
            align * q + r == offset + align - 1,
            0 <= r < align,
            offset >= 0,
            align > 0,
    ;
    assert(q * align >= 0) by (nonlinear_arith)
        requires
            q >= 0,
            align > 0,
    ;
    div_mod::lemma_mod_multiples_basic(q, align as int);
    if other % align == 0 && other >= offset {
        div_mod::lemma_fundamental_div_mod(other as int, align as int);
        let k = other as int / align as int;
        assert(align * k == k * align) by (nonlinear_arith);
        assert(q <= k) by (nonlinear_arith)
            requires
                other == align * k,
                offset <= other,
                align * q + r == offset + align - 1,
                0 <= r < align,
                align > 0,
        ;
        assert(q * align <= k * align) by (nonlinear_arith)
            requires
                q <= k,
                align > 0,
        ;
    }
}

/// A power of two has one bit set, so clearing its lowest set bit leaves
/// nothing; no other number has that property.
proof fn one_bit_iff_power_of_two(a: usize)
    requires
        a > 0,
    ensures
        a & ((a - 1) as usize) == 0 <==> power2::is_pow2(a as int),
    decreases a,
{
    reveal(power2::is_pow2);
    let p: usize = (a - 1) as usize;
    if a == 1 {
        assert(1usize & 0usize == 0usize) by (bit_vector);
    } else if a % 2 == 1 {
        assert(a & p != 0) by (bit_vector)
            requires
                a > 1,
                a % 2 == 1,
                p == a - 1,
        ;
    } else {
        let h: usize = a / 2;
        let hp: usize = (h - 1) as usize;
        one_bit_iff_power_of_two(h);
        assert(a & p == 0 <==> h & hp == 0) by (bit_vector)
            requires
                a > 1,
                a % 2 == 0,
                p == a - 1,
                h == a / 2,
                hp == h - 1,
        ;
    }
}

/// Masking with one less than a power of two takes the remainder.
proof fn mask_is_remainder(x: usize, a: usize)
    requires
        power2::is_pow2(a as int),
    ensures
        a > 0,
        x & ((a - 1) as usize) == x % a,
    decreases a,
{
    reveal(power2::is_pow2);
    let p: usize = (a - 1) as usize;
    if a == 1 {
        assert(x & 0usize == 0usize) by (bit_vector);
    } else {
        let h: usize = a / 2;
        let hp: usize = (h - 1) as usize;
        let y: usize = x / 2;
        mask_is_remainder(y, h);
        let m: usize = y & hp;
        assert(x & p == 2 * m + x % 2) by (bit_vector)
            requires
                a > 1,
                a % 2 == 0,
                p == a - 1,
                h == a / 2,
                hp == h - 1,
                y == x / 2,
                m == y & hp,
        ;
        div_mod::lemma_mod_breakdown(x as int, 2, h as int);
    }
}

/// A power of two that fits in a `usize` is at most half of what a `usize`
/// can count to.
pub proof fn power_of_two_is_at_most_half(a: usize)
    requires
        power2::is_pow2(a as int),
    ensures
        a <= usize::MAX / 2 + 1,
{
    reveal(power2::is_pow2);
    one_bit_iff_power_of_two(a);
    let b: u64 = a as u64;
    let p: u64 = (a - 1) as u64;
    assert(b & p == 0);
    assert(b <= 0x8000_0000_0000_0000) by (bit_vector)
        requires
            b > 0,
            p == b - 1,
            b & p == 0,
    ;
    assert(b <= 0xffff_ffff ==> b <= 0x8000_0000) by (bit_vector)
        requires
            b > 0,
            p == b - 1,
            b & p == 0,
    ;
}

/// Whether `a` is a power of two.
pub fn is_power_of_two(a: usize) -> (yes: bool)
    ensures
        yes == power2::is_pow2(a as int),
{
    if a == 0 {
        proof {
            reveal(power2::is_pow2);
        }
        return false;
    }
    proof {
        one_bit_iff_power_of_two(a);
    }
    a & (a - 1) == 0
}

/// The least multiple of `align` that is not below `offset`.
pub fn align_up(offset: usize, align: usize) -> (aligned: usize)
    requires
        power2::is_pow2(align as int),
        offset + align - 1 <= usize::MAX,
    ensures
        aligned == aligned_up(offset as nat, align as nat),
{
    proof {
        reveal(power2::is_pow2);
    }
    let mask: usize = align - 1;
    let sum: usize = offset + mask;
    proof {
        mask_is_remainder(sum, align);
        assert(sum & !mask == sum - (sum & mask)) by (bit_vector);
        div_mod::lemma_fundamental_div_mod(sum as int, align as int);
        assert(align * (sum as int / align as int) == sum as int / align as int * align)
            by (nonlinear_arith);
    }
    sum & !mask
}

/// Rounding up gives a multiple of the alignment, less than one alignment away
/// and not below the offset, and no smaller number is such a multiple.
pub proof fn rounding_up_is_least(offset: usize, alignment: usize, aligned: usize, other: nat)
    requires
        power2::is_pow2(alignment as int),
        call_ensures(align_up, (offset, alignment), aligned),
    ensures
        aligned % alignment == 0,
        offset <= aligned < offset + alignment,
        other % (alignment as nat) == 0 && other >= offset ==> aligned <= other,
{
    reveal(power2::is_pow2);
    aligned_up_is_least(offset as nat, alignment as nat, other);
}

/// One is a power of two, doubling keeps that and so does halving; no odd
/// number but one, and not zero, is one.
pub proof fn powers_of_two_double(a: usize, twice: usize, of_a: bool, of_twice: bool)
    requires
        twice == 2 * a,
        call_ensures(is_power_of_two, (a,), of_a),
        call_ensures(is_power_of_two, (twice,), of_twice),
    ensures
        a == 0 ==> !of_a,
        a == 1 ==> of_a,
        a % 2 == 1 && a != 1 ==> !of_a,
        a > 0 ==> of_a == of_twice,
{
    reveal(power2::is_pow2);
    if a > 0 {
        one_bit_iff_power_of_two(a);
        one_bit_iff_power_of_two(twice);
        let p: usize = (a - 1) as usize;
        let q: usize = (twice - 1) as usize;
        assert(a & p == 0 <==> twice & q == 0) by (bit_vector)
            requires
                a > 0,
                twice == 2 * a,
                p == a - 1,
                q == twice - 1,
        ;
        if a % 2 == 1 && a != 1 {
            assert(a & p != 0) by (bit_vector)
                requires
                    a > 1,
                    a % 2 == 1,
                    p == a - 1,
            ;
        }
        if a == 1 {
            assert(1usize & 0usize == 0usize) by (bit_vector);
        }
    }
}

} // verus!

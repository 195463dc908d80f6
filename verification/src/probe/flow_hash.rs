//! The flow hash: Murmur3-32 over a packed 5-tuple.

use vstd::prelude::*;
use crate::bytes;

verus! {

/// First multiplier of the block scrambler.
pub const C1: u32 = 0xcc9e_2d51;

/// Second multiplier of the block scrambler.
pub const C2: u32 = 0x1b87_3593;

/// Additive constant of the block mixer.
pub const MIX_ADD: u32 = 0xe654_6b64;

/// `x` with its bits rotated left by `by`.
pub open spec fn rotated(x: u32, by: u32) -> u32 {
    (x << by) | (x >> ((32 - by) as u32))
}

/// A 32-bit word scrambled before it is mixed in.
pub open spec fn scrambled(k: u32) -> u32 {
    rotated(k.wrapping_mul(C1), 15).wrapping_mul(C2)
}

/// Hash state `h` with word `k` mixed in.
pub open spec fn mixed(h: u32, k: u32) -> u32 {
    rotated(h ^ scrambled(k), 13).wrapping_mul(5).wrapping_add(MIX_ADD)
}

/// Hash state `h` with all whole little-endian words of `data` mixed in.
pub open spec fn words_mixed(h: u32, data: Seq<u8>) -> u32
    decreases data.len(),
{
    if data.len() < 4 {
        h
    } else {
        words_mixed(
            mixed(h, bytes::le_value(data.subrange(0, 4)) as u32),
            data.subrange(4, data.len() as int),
        )
    }
}

/// The bytes behind the last whole word of `data`.
pub open spec fn tail_of(data: Seq<u8>) -> Seq<u8> {
    data.subrange(data.len() - data.len() % 4, data.len() as int)
}

/// The finalizer: every input bit reaches every output bit.
pub open spec fn avalanche(h: u32) -> u32 {
    let h1 = (h ^ (h >> 16)).wrapping_mul(0x85eb_ca6b);
    let h2 = (h1 ^ (h1 >> 13)).wrapping_mul(0xc2b2_ae35);
    h2 ^ (h2 >> 16)
}

/// Murmur3-32 of `data` (the x86 32-bit variant).
pub open spec fn murmur3_32(data: Seq<u8>, seed: u32) -> u32 {
    let h = words_mixed(seed, data) ^ scrambled(bytes::le_value(tail_of(data)) as u32);
    avalanche(h ^ (data.len() as u32))
}

/// The 13 bytes that stand for a 5-tuple.
pub open spec fn packed_tuple(
    src_ip: u32,
    dst_ip: u32,
    src_port: u16,
    dst_port: u16,
    proto: u8,
) -> Seq<u8> {
    bytes::le_bytes(src_ip as nat, 4) + bytes::le_bytes(dst_ip as nat, 4) + bytes::le_bytes(
        src_port as nat,
        2,
    ) + bytes::le_bytes(dst_port as nat, 2) + seq![proto]
}

/// Rotates the bits of `x` left.
fn rotate_left(x: u32, by: u32) -> (r: u32)
    requires
        0 < by < 32,
    ensures
        r == rotated(x, by),
{
    (x << by) | (x >> (32 - by))
}

/// Scrambles a word.
fn scramble(k: u32) -> (r: u32)
    ensures
        r == scrambled(k),
{
    rotate_left(k.wrapping_mul(C1), 15).wrapping_mul(C2)
}

/// Mixes a word into the hash state.
fn mix(h: u32, k: u32) -> (r: u32)
    ensures
        r == mixed(h, k),
{
    rotate_left(h ^ scramble(k), 13).wrapping_mul(5).wrapping_add(MIX_ADD)
}

/// The finalizer.
pub fn fmix32(h: u32) -> (r: u32)
    ensures
        r == avalanche(h),
{
    let h1: u32 = (h ^ (h >> 16)).wrapping_mul(0x85eb_ca6b);
    let h2: u32 = (h1 ^ (h1 >> 13)).wrapping_mul(0xc2b2_ae35);
    h2 ^ (h2 >> 16)
}

/// The Murmur3-32 hash, with seed 0, of a 5-tuple's 13 bytes.
pub fn murmur3_13(src_ip: u32, dst_ip: u32, src_port: u16, dst_port: u16, proto: u8) -> (hash: u32)
    ensures
        hash == murmur3_32(packed_tuple(src_ip, dst_ip, src_port, dst_port, proto), 0),
{
    let ports: u32 = (src_port as u32) | ((dst_port as u32) << 16);
    let h1: u32 = mix(0, src_ip);
    let h2: u32 = mix(h1, dst_ip);
    let h3: u32 = mix(h2, ports);
    let h4: u32 = h3 ^ scramble(proto as u32);
    proof {
        let s = src_port as u32;
        let d = dst_port as u32;
        assert(s | (d << 16) == s + 0x1_0000 * d) by (bit_vector)
            requires
                s <= 0xffff,
                d <= 0xffff,
        ;
        tuple_words(src_ip, dst_ip, src_port, dst_port, proto);
    }
    fmix32(h4 ^ 13)
}

/// The packed tuple is three words, which hold the addresses and the ports,
/// and the protocol behind them.
proof fn tuple_words(src_ip: u32, dst_ip: u32, src_port: u16, dst_port: u16, proto: u8)
    ensures
        ({
            let data = packed_tuple(src_ip, dst_ip, src_port, dst_port, proto);
            &&& data.len() == 13
            &&& words_mixed(0, data) == mixed(
                mixed(mixed(0, src_ip), dst_ip),
                (src_port + 0x1_0000 * dst_port) as u32,
            )
            &&& bytes::le_value(tail_of(data)) == proto
        }),
{
    let data = packed_tuple(src_ip, dst_ip, src_port, dst_port, proto);
    bytes::byte_ranges();
    bytes::le_write_then_read(src_ip as nat, 4);
    bytes::le_write_then_read(dst_ip as nat, 4);
    bytes::le_write_then_read(src_port as nat, 2);
    bytes::le_write_then_read(dst_port as nat, 2);
    let a = bytes::le_bytes(src_ip as nat, 4);
    let b = bytes::le_bytes(dst_ip as nat, 4);
    let p = bytes::le_bytes(src_port as nat, 2);
    let q = bytes::le_bytes(dst_port as nat, 2);
    let rest1 = data.subrange(4, 13);
    let rest2 = rest1.subrange(4, 9);
    let rest3 = rest2.subrange(4, 5);
    assert(data.subrange(0, 4) =~= a);
    assert(rest1.subrange(0, 4) =~= b);
    assert(rest2.subrange(0, 4) =~= p + q);
    bytes::le_value_2(p);
    bytes::le_value_2(q);
    bytes::le_value_4(p + q);
    reveal_with_fuel(words_mixed, 4);
    reveal_with_fuel(bytes::le_value, 2);
    assert(tail_of(data) =~= seq![proto]);
    assert(seq![proto].drop_first() =~= Seq::empty());
}

proof fn product_comes_back(a: u32, c: u32, inverse: u32, turns: int)
    requires
        c * inverse == 1 + 0x1_0000_0000 * turns,
    ensures
        (a.wrapping_mul(c) * inverse) % 0x1_0000_0000 == a,
{
    let m: int = 0x1_0000_0000;
    vstd::arithmetic::div_mod::lemma_mul_mod_noop_left(a * c, inverse as int, m);
    assert(a * c * inverse == a + m * (a * turns)) by (nonlinear_arith)
        requires
            c * inverse == 1 + m * turns,
    ;
    vstd::arithmetic::div_mod::lemma_mod_multiples_vanish(a * turns, a as int, m);
    vstd::arithmetic::div_mod::lemma_small_mod(a as nat, m as nat);
}

/// Multiplying by `c` and wrapping loses nothing if `c` has an inverse.
proof fn product_tells_factors_apart(a: u32, b: u32, c: u32, inverse: u32, turns: int)
    requires
        a.wrapping_mul(c) == b.wrapping_mul(c),
        c * inverse == 1 + 0x1_0000_0000 * turns,
    ensures
        a == b,
{
    product_comes_back(a, c, inverse, turns);
    product_comes_back(b, c, inverse, turns);
}

proof fn scrambling_tells_words_apart(a: u32, b: u32)
    requires
        scrambled(a) == scrambled(b),
    ensures
        a == b,
{
    let p = a.wrapping_mul(C1);
    let q = b.wrapping_mul(C1);
    product_tells_factors_apart(rotated(p, 15), rotated(q, 15), C2, 0x56ed_309b, 156822886);
    assert(p == q) by (bit_vector)
        requires
            (p << 15) | (p >> 17) == (q << 15) | (q >> 17),
    ;
    product_tells_factors_apart(a, b, C1, 0xdee1_3bb1, 2988782088);
}

proof fn mixing_tells_inputs_apart(h: u32, k: u32, g: u32, j: u32)
    requires
        mixed(h, k) == mixed(g, j),
    ensures
        h ^ scrambled(k) == g ^ scrambled(j),
{
    let p = h ^ scrambled(k);
    let q = g ^ scrambled(j);
    let x = rotated(p, 13).wrapping_mul(5);
    let y = rotated(q, 13).wrapping_mul(5);
    assert(x == y) by {
        assert(x.wrapping_add(MIX_ADD) == y.wrapping_add(MIX_ADD));
    }
    product_tells_factors_apart(rotated(p, 13), rotated(q, 13), 5, 0xcccc_cccd, 4);
    assert(p == q) by (bit_vector)
        requires
            (p << 13) | (p >> 19) == (q << 13) | (q >> 19),
    ;
}

proof fn avalanche_tells_states_apart(a: u32, b: u32)
    requires
        avalanche(a) == avalanche(b),
    ensures
        a == b,
{
    let a1 = (a ^ (a >> 16)).wrapping_mul(0x85eb_ca6b);
    let b1 = (b ^ (b >> 16)).wrapping_mul(0x85eb_ca6b);
    let a2 = (a1 ^ (a1 >> 13)).wrapping_mul(0xc2b2_ae35);
    let b2 = (b1 ^ (b1 >> 13)).wrapping_mul(0xc2b2_ae35);
    assert(a2 == b2) by (bit_vector)
        requires
            a2 ^ (a2 >> 16) == b2 ^ (b2 >> 16),
    ;
    product_tells_factors_apart(a1 ^ (a1 >> 13), b1 ^ (b1 >> 13), 0xc2b2_ae35, 0x7ed1_b41d, 1618177690);
    assert(a1 == b1) by (bit_vector)
        requires
            a1 ^ (a1 >> 13) == b1 ^ (b1 >> 13),
    ;
    product_tells_factors_apart(a ^ (a >> 16), b ^ (b >> 16), 0x85eb_ca6b, 0xa5cb_9243, 1455126516);
    assert(a == b) by (bit_vector)
        requires
            a ^ (a >> 16) == b ^ (b >> 16),
    ;
}

proof fn xor_cancels(x: u32, a: u32, b: u32)
    ensures
        x ^ a == x ^ b <==> a == b,
        a ^ x == b ^ x <==> a == b,
{
    assert((x ^ a == x ^ b <==> a == b) && (a ^ x == b ^ x <==> a == b)) by (bit_vector);
}

/// The finalizer loses nothing: different states give different hashes.
pub proof fn finalizer_tells_states_apart(a: u32, b: u32, of_a: u32, of_b: u32)
    requires
        call_ensures(fmix32, (a,), of_a),
        call_ensures(fmix32, (b,), of_b),
    ensures
        of_a == of_b <==> a == b,
{
    if of_a == of_b {
        avalanche_tells_states_apart(a, b);
    }
}

/// Every field of the 5-tuple counts: two flows that agree on all fields but
/// one, the two ports taken together, have the same hash only if they agree on
/// that one too.
pub proof fn every_field_reaches_the_hash(
    a: (u32, u32, u16, u16, u8),
    b: (u32, u32, u16, u16, u8),
    hash_a: u32,
    hash_b: u32,
)
    requires
        call_ensures(murmur3_13, a, hash_a),
        call_ensures(murmur3_13, b, hash_b),
    ensures
        ({
            let src = a.0 == b.0;
            let dst = a.1 == b.1;
            let ports = a.2 == b.2 && a.3 == b.3;
            let proto = a.4 == b.4;
            &&& dst && ports && proto ==> (hash_a == hash_b <==> src)
            &&& src && ports && proto ==> (hash_a == hash_b <==> dst)
            &&& src && dst && proto ==> (hash_a == hash_b <==> ports)
            &&& src && dst && ports ==> (hash_a == hash_b <==> proto)
        }),
{
    tuple_words(a.0, a.1, a.2, a.3, a.4);
    tuple_words(b.0, b.1, b.2, b.3, b.4);
    let pa = (a.2 + 0x1_0000 * a.3) as u32;
    let pb = (b.2 + 0x1_0000 * b.3) as u32;
    let a1 = mixed(0, a.0);
    let b1 = mixed(0, b.0);
    let a2 = mixed(a1, a.1);
    let b2 = mixed(b1, b.1);
    let a3 = mixed(a2, pa);
    let b3 = mixed(b2, pb);
    let a4 = a3 ^ scrambled(a.4 as u32);
    let b4 = b3 ^ scrambled(b.4 as u32);
    if hash_a == hash_b {
        avalanche_tells_states_apart(a4 ^ 13, b4 ^ 13);
        xor_cancels(13, a4, b4);
        if a3 == b3 {
            xor_cancels(a3, scrambled(a.4 as u32), scrambled(b.4 as u32));
            scrambling_tells_words_apart(a.4 as u32, b.4 as u32);
        }
        if a.4 == b.4 {
            xor_cancels(scrambled(a.4 as u32), a3, b3);
            mixing_tells_inputs_apart(a2, pa, b2, pb);
            if a2 == b2 {
                xor_cancels(a2, scrambled(pa), scrambled(pb));
                scrambling_tells_words_apart(pa, pb);
            }
            if pa == pb {
                xor_cancels(scrambled(pa), a2, b2);
                mixing_tells_inputs_apart(a1, a.1, b1, b.1);
                if a1 == b1 {
                    xor_cancels(a1, scrambled(a.1), scrambled(b.1));
                    scrambling_tells_words_apart(a.1, b.1);
                }
                if a.1 == b.1 {
                    xor_cancels(scrambled(a.1), a1, b1);
                    mixing_tells_inputs_apart(0, a.0, 0, b.0);
                    xor_cancels(0, scrambled(a.0), scrambled(b.0));
                    scrambling_tells_words_apart(a.0, b.0);
                }
            }
        }
    }
}

} // verus!

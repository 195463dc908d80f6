//! Reading integers and byte arrays out of packets and ring-buffer records.
//!
//! The probes are built for the little-endian BPF target, so every record
//! that they write is little-endian; packet headers are in network order.

use vstd::prelude::*;

verus! {

/// The number that `s` spells with its least significant byte first.
pub open spec fn le_value(s: Seq<u8>) -> nat
    decreases s.len(),
{
    if s.len() == 0 {
        0
    } else {
        s[0] as nat + 256 * le_value(s.drop_first())
    }
}

/// The number that `s` spells with its most significant byte first.
pub open spec fn be_value(s: Seq<u8>) -> nat
    decreases s.len(),
{
    if s.len() == 0 {
        0
    } else {
        256 * be_value(s.drop_last()) + s.last() as nat
    }
}

/// The `width` bytes that spell `v`, least significant byte first.
pub open spec fn le_bytes(v: nat, width: nat) -> Seq<u8>
    decreases width,
{
    if width == 0 {
        Seq::empty()
    } else {
        seq![(v % 256) as u8] + le_bytes(v / 256, (width - 1) as nat)
    }
}

/// How many numbers `width` bytes can spell.
pub open spec fn byte_range(width: nat) -> nat
    decreases width,
{
    if width == 0 {
        1
    } else {
        256 * byte_range((width - 1) as nat)
    }
}

/// Two, four and eight bytes spell the numbers of `u16`, `u32` and `u64`.
pub proof fn byte_ranges()
    ensures
        byte_range(2) == 0x1_0000,
        byte_range(4) == 0x1_0000_0000,
        byte_range(8) == 0x1_0000_0000_0000_0000,
{
    reveal_with_fuel(byte_range, 9);
}

/// Writing a number that fits in `width` bytes and reading those bytes back
/// gives the number.
pub proof fn le_write_then_read(v: nat, width: nat)
    requires
        v < byte_range(width),
    ensures
        le_bytes(v, width).len() == width,
        le_value(le_bytes(v, width)) == v,
    decreases width,
{
    if width > 0 {
        let rest = le_bytes(v / 256, (width - 1) as nat);
        le_write_then_read(v / 256, (width - 1) as nat);
        assert(le_bytes(v, width).drop_first() =~= rest);
    }
}

/// Reading bytes as a number and writing that number in as many bytes gives
/// the bytes.
pub proof fn le_read_then_write(s: Seq<u8>)
    ensures
        le_bytes(le_value(s), s.len()) == s,
        le_value(s) < byte_range(s.len()),
    decreases s.len(),
{
    if s.len() > 0 {
        le_read_then_write(s.drop_first());
        let rest = le_value(s.drop_first());
        assert((s[0] as nat + 256 * rest) % 256 == s[0] as nat);
        assert((s[0] as nat + 256 * rest) / 256 == rest);
        assert(seq![s[0]] + s.drop_first() =~= s);
    }
}

/// Two bytes spelled out.
pub proof fn le_value_2(s: Seq<u8>)
    requires
        s.len() == 2,
    ensures
        le_value(s) == s[0] + 256 * s[1],
{
    reveal_with_fuel(le_value, 3);
}

/// Four bytes spelled out.
pub proof fn le_value_4(s: Seq<u8>)
    requires
        s.len() == 4,
    ensures
        le_value(s) == s[0] + 256 * (s[1] + 256 * (s[2] + 256 * s[3])),
{
    reveal_with_fuel(le_value, 5);
}

proof fn le_value_8(s: Seq<u8>)
    requires
        s.len() == 8,
    ensures
        le_value(s) == le_value(s.subrange(0, 4)) + 0x1_0000_0000 * le_value(s.subrange(4, 8)),
{
    reveal_with_fuel(le_value, 9);
    le_value_4(s.subrange(0, 4));
    le_value_4(s.subrange(4, 8));
}

proof fn be_value_2(s: Seq<u8>)
    requires
        s.len() == 2,
    ensures
        be_value(s) == 256 * s[0] + s[1],
{
    reveal_with_fuel(be_value, 3);
}

proof fn be_value_4(s: Seq<u8>)
    requires
        s.len() == 4,
    ensures
        be_value(s) == 256 * (256 * (256 * s[0] + s[1]) + s[2]) + s[3],
{
    reveal_with_fuel(be_value, 5);
}

/// Two bytes in network order: the first counts 256 times the second.
pub proof fn network_order_2(s: Seq<u8>, at: int)
    requires
        0 <= at,
        at + 2 <= s.len(),
    ensures
        be_value(s.subrange(at, at + 2)) == 256 * s[at] + s[at + 1],
{
    be_value_2(s.subrange(at, at + 2));
}

/// Four bytes in network order: each counts 256 times the next.
pub proof fn network_order_4(s: Seq<u8>, at: int)
    requires
        0 <= at,
        at + 4 <= s.len(),
    ensures
        be_value(s.subrange(at, at + 4)) == 0x100_0000 * s[at] + 0x1_0000 * s[at + 1] + 0x100 * s[at
            + 2] + s[at + 3],
{
    be_value_4(s.subrange(at, at + 4));
}

/// Two bytes in record order: the second counts 256 times the first.
pub proof fn record_order_2(s: Seq<u8>, at: int)
    requires
        0 <= at,
        at + 2 <= s.len(),
    ensures
        le_value(s.subrange(at, at + 2)) == s[at] + 0x100 * s[at + 1],
{
    le_value_2(s.subrange(at, at + 2));
}

/// Four bytes in record order: each counts 256 times the one before.
pub proof fn record_order_4(s: Seq<u8>, at: int)
    requires
        0 <= at,
        at + 4 <= s.len(),
    ensures
        le_value(s.subrange(at, at + 4)) == s[at] + 0x100 * s[at + 1] + 0x1_0000 * s[at + 2]
            + 0x100_0000 * s[at + 3],
{
    le_value_4(s.subrange(at, at + 4));
}

/// Eight bytes in record order: each counts 256 times the one before.
pub proof fn record_order_8(s: Seq<u8>, at: int)
    requires
        0 <= at,
        at + 8 <= s.len(),
    ensures
        le_value(s.subrange(at, at + 8)) == s[at] + 0x100 * s[at + 1] + 0x1_0000 * s[at + 2]
            + 0x100_0000 * s[at + 3] + 0x1_0000_0000 * s[at + 4] + 0x100_0000_0000 * s[at + 5]
            + 0x1_0000_0000_0000 * s[at + 6] + 0x100_0000_0000_0000 * s[at + 7],
{
    let r = s.subrange(at, at + 8);
    le_value_8(r);
    assert(r.subrange(0, 4) =~= s.subrange(at, at + 4));
    assert(r.subrange(4, 8) =~= s.subrange(at + 4, at + 8));
    record_order_4(s, at);
    record_order_4(s, at + 4);
}

/// The little-endian `u16` at `at`.
pub fn read_le_u16(b: &[u8], at: usize) -> (v: u16)
    requires
        at + 2 <= b@.len(),
    ensures
        v == le_value(b@.subrange(at as int, at + 2)),
{
    let _len: usize = b.len();
    proof {
        le_value_2(b@.subrange(at as int, at + 2));
    }
    b[at] as u16 + 256 * (b[at + 1] as u16)
}

/// The little-endian `u32` at `at`.
pub fn read_le_u32(b: &[u8], at: usize) -> (v: u32)
    requires
        at + 4 <= b@.len(),
    ensures
        v == le_value(b@.subrange(at as int, at + 4)),
{
    let _len: usize = b.len();
    proof {
        le_value_4(b@.subrange(at as int, at + 4));
    }
    b[at] as u32 + 256 * (b[at + 1] as u32 + 256 * (b[at + 2] as u32 + 256 * (b[at + 3] as u32)))
}

/// The little-endian `u64` at `at`.
pub fn read_le_u64(b: &[u8], at: usize) -> (v: u64)
    requires
        at + 8 <= b@.len(),
    ensures
        v == le_value(b@.subrange(at as int, at + 8)),
{
    let _len: usize = b.len();
    let low: u32 = read_le_u32(b, at);
    let high: u32 = read_le_u32(b, at + 4);
    proof {
        let s = b@.subrange(at as int, at + 8);
        le_value_8(s);
        assert(s.subrange(0, 4) =~= b@.subrange(at as int, at + 4));
        assert(s.subrange(4, 8) =~= b@.subrange(at + 4, at + 8));
    }
    low as u64 + 0x1_0000_0000 * (high as u64)
}

/// The network-order `u16` at `at`.
pub fn read_be_u16(b: &[u8], at: usize) -> (v: u16)
    requires
        at + 2 <= b@.len(),
    ensures
        v == be_value(b@.subrange(at as int, at + 2)),
{
    let _len: usize = b.len();
    proof {
        be_value_2(b@.subrange(at as int, at + 2));
    }
    256 * (b[at] as u16) + b[at + 1] as u16
}

/// The network-order `u32` at `at`.
pub fn read_be_u32(b: &[u8], at: usize) -> (v: u32)
    requires
        at + 4 <= b@.len(),
    ensures
        v == be_value(b@.subrange(at as int, at + 4)),
{
    let _len: usize = b.len();
    proof {
        be_value_4(b@.subrange(at as int, at + 4));
    }
    256 * (256 * (256 * (b[at] as u32) + b[at + 1] as u32) + b[at + 2] as u32) + b[at + 3] as u32
}

/// The `N` bytes that start at `at`.
pub fn read_array<const N: usize>(b: &[u8], at: usize) -> (r: [u8; N])
    requires
        at + N <= b@.len(),
    ensures
        r@ == b@.subrange(at as int, at + N),
{
    let len: usize = b.len();
    let mut r: [u8; N] = [0u8; N];
    let mut i: usize = 0;
    while i < N
        invariant
            i <= N,
            at + N <= b@.len(),
            b@.len() == len,
            forall|j: int| 0 <= j < i ==> r@[j] == b@[at + j],
        decreases N - i,
    {
        r[i] = b[at + i];
        i += 1;
    }
    r
}

/// `s` with the bytes from `at` on replaced by `part`.
pub open spec fn overwritten(s: Seq<u8>, at: int, part: Seq<u8>) -> Seq<u8> {
    s.subrange(0, at) + part + s.subrange(at + part.len(), s.len() as int)
}

/// Writes the `width` low-order bytes of `v` at `at`, least significant first.
pub fn put_le<const N: usize>(out: &mut [u8; N], at: usize, v: u64, width: usize)
    requires
        at + width <= N,
    ensures
        final(out)@ == overwritten(old(out)@, at as int, le_bytes(v as nat, width as nat)),
{
    let ghost start = out@;
    let ghost whole = le_bytes(v as nat, width as nat);
    let mut rest: u64 = v;
    let mut i: usize = 0;
    proof {
        le_bytes_len(v as nat, width as nat);
        assert(whole.subrange(0, width as int) =~= whole);
    }
    while i < width
        invariant
            i <= width,
            at + width <= N,
            whole.len() == width,
            le_bytes(rest as nat, (width - i) as nat) == whole.subrange(i as int, width as int),
            start.len() == N,
            out@.len() == N,
            forall|j: int| 0 <= j < N && !(at <= j < at + i) ==> out@[j] == start[j],
            forall|j: int| 0 <= j < i ==> out@[at + j] == whole[j],
        decreases width - i,
    {
        out[at + i] = (rest % 256) as u8;
        proof {
            le_bytes_len(rest as nat / 256, (width - i - 1) as nat);
            let tail = le_bytes(rest as nat, (width - i) as nat);
            assert(tail[0] == (rest as nat % 256) as u8);
            assert(tail.drop_first() =~= le_bytes(rest as nat / 256, (width - i - 1) as nat));
            assert(tail.drop_first() =~= whole.subrange(i + 1, width as int));
        }
        rest = rest / 256;
        i += 1;
    }
    assert(out@ =~= overwritten(start, at as int, whole));
}

proof fn le_bytes_len(v: nat, width: nat)
    ensures
        le_bytes(v, width).len() == width,
    decreases width,
{
    if width > 0 {
        le_bytes_len(v / 256, (width - 1) as nat);
    }
}

/// Writes `src` at `at`.
pub fn put_bytes<const N: usize>(out: &mut [u8; N], at: usize, src: &[u8])
    requires
        at + src@.len() <= N,
    ensures
        final(out)@ == overwritten(old(out)@, at as int, src@),
{
    let ghost start = out@;
    let len: usize = src.len();
    let mut i: usize = 0;
    while i < len
        invariant
            i <= len,
            len == src@.len(),
            at + len <= N,
            start.len() == N,
            out@.len() == N,
            forall|j: int| 0 <= j < N && !(at <= j < at + i) ==> out@[j] == start[j],
            forall|j: int| 0 <= j < i ==> out@[at + j] == src@[j],
        decreases len - i,
    {
        out[at + i] = src[i];
        i += 1;
    }
    assert(out@ =~= overwritten(start, at as int, src@));
}

/// Numbers are read as their bytes spell them: in records the least
/// significant byte comes first, in packets the most significant.
pub proof fn reads_are_what_the_bytes_spell(
    b: &[u8],
    at: usize,
    le2: u16,
    le4: u32,
    be2: u16,
    be4: u32,
)
    requires
        at + 4 <= b@.len(),
        call_ensures(read_le_u16, (b, at), le2),
        call_ensures(read_le_u32, (b, at), le4),
        call_ensures(read_be_u16, (b, at), be2),
        call_ensures(read_be_u32, (b, at), be4),
    ensures
        le2 == b@[at as int] + 0x100 * b@[at + 1],
        le4 == b@[at as int] + 0x100 * b@[at + 1] + 0x1_0000 * b@[at + 2] + 0x100_0000 * b@[at + 3],
        be2 == 0x100 * b@[at as int] + b@[at + 1],
        be4 == 0x100_0000 * b@[at as int] + 0x1_0000 * b@[at + 1] + 0x100 * b@[at + 2] + b@[at + 3],
{
    record_order_2(b@, at as int);
    record_order_4(b@, at as int);
    network_order_2(b@, at as int);
    network_order_4(b@, at as int);
}

/// A 64-bit number in a record is its lower half and 2^32 times its upper.
pub proof fn wide_reads_are_two_halves(b: &[u8], at: usize, next: usize, low: u32, high: u32, whole: u64)
    requires
        at + 8 <= b@.len(),
        next == at + 4,
        call_ensures(read_le_u32, (b, at), low),
        call_ensures(read_le_u32, (b, next), high),
        call_ensures(read_le_u64, (b, at), whole),
    ensures
        whole == low + 0x1_0000_0000 * high,
{
    record_order_8(b@, at as int);
    record_order_4(b@, at as int);
    record_order_4(b@, at + 4);
}

/// A number that fits is read back as it was written, and writing touches no
/// byte outside its place.
pub proof fn writes_are_read_back<const N: usize>(
    out: &mut [u8; N],
    at: usize,
    v: u32,
    record: &[u8],
    back: u32,
    i: int,
)
    requires
        at + 4 <= N,
        call_ensures(put_le::<N>, (out, at, v as u64, 4usize), ()),
        record@ == final(out)@,
        call_ensures(read_le_u32, (record, at), back),
        0 <= i < N,
    ensures
        back == v,
        !(at <= i < at + 4) ==> final(out)@[i] == old(out)@[i],
{
    byte_ranges();
    le_write_then_read(v as nat, 4);
    assert(record@.subrange(at as int, at + 4) =~= le_bytes(v as nat, 4));
}

/// Bytes are written and read as they are, in order, and writing touches no
/// byte outside their place.
pub proof fn bytes_are_read_back<const N: usize, const M: usize>(
    out: &mut [u8; N],
    at: usize,
    src: &[u8],
    record: &[u8],
    back: [u8; M],
    i: int,
    j: int,
)
    requires
        src@.len() == M,
        at + M <= N,
        call_ensures(put_bytes::<N>, (out, at, src), ()),
        record@ == final(out)@,
        call_ensures(read_array::<M>, (record, at), back),
        0 <= i < N,
        0 <= j < M,
    ensures
        back@[j] == src@[j],
        !(at <= i < at + M) ==> final(out)@[i] == old(out)@[i],
{
}

} // verus!

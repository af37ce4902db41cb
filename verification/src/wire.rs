//! Little-endian field access for the fixed-offset account and instruction
//! layouts: the byte image of each fixed-width integer as an open
//! specification function, executable reads and writes proved against it,
//! and the round-trip lemmas the codec rests on.

use vstd::prelude::*;

verus! {

/// The little-endian image of an unsigned 32-bit value: low byte first.
pub open spec fn spec_u32_le_bytes(x: u32) -> Seq<u8> {
    seq![
        (x & 0xff) as u8,
        ((x >> 8) & 0xff) as u8,
        ((x >> 16) & 0xff) as u8,
        ((x >> 24) & 0xff) as u8,
    ]
}

/// The unsigned 32-bit value stored little-endian in the first 4 bytes of
/// `s`.
pub open spec fn spec_u32_from_le(s: Seq<u8>) -> u32
    recommends
        s.len() >= 4,
{
    (s[0] as u32) | (s[1] as u32) << 8 | (s[2] as u32) << 16 | (s[3] as u32) << 24
}

/// The little-endian image of an unsigned 64-bit value: low byte first.
pub open spec fn spec_u64_le_bytes(x: u64) -> Seq<u8> {
    seq![
        (x & 0xff) as u8,
        ((x >> 8) & 0xff) as u8,
        ((x >> 16) & 0xff) as u8,
        ((x >> 24) & 0xff) as u8,
        ((x >> 32) & 0xff) as u8,
        ((x >> 40) & 0xff) as u8,
        ((x >> 48) & 0xff) as u8,
        ((x >> 56) & 0xff) as u8,
    ]
}

/// The unsigned 64-bit value stored little-endian in the first 8 bytes of
/// `s`.
pub open spec fn spec_u64_from_le(s: Seq<u8>) -> u64
    recommends
        s.len() >= 8,
{
    (s[0] as u64) | (s[1] as u64) << 8 | (s[2] as u64) << 16 | (s[3] as u64) << 24 | (s[4] as u64)
        << 32 | (s[5] as u64) << 40 | (s[6] as u64) << 48 | (s[7] as u64) << 56
}

/// The little-endian image of a signed 32-bit value: the image of its
/// two's-complement bit pattern.
pub open spec fn spec_i32_le_bytes(x: i32) -> Seq<u8> {
    spec_u32_le_bytes(x as u32)
}

/// The signed 32-bit value whose two's-complement bit pattern is stored
/// little-endian in the first 4 bytes of `s`.
pub open spec fn spec_i32_from_le(s: Seq<u8>) -> i32
    recommends
        s.len() >= 4,
{
    spec_u32_from_le(s) as i32
}

/// The little-endian image of a signed 64-bit value: the image of its
/// two's-complement bit pattern.
pub open spec fn spec_i64_le_bytes(x: i64) -> Seq<u8> {
    spec_u64_le_bytes(x as u64)
}

/// The signed 64-bit value whose two's-complement bit pattern is stored
/// little-endian in the first 8 bytes of `s`.
pub open spec fn spec_i64_from_le(s: Seq<u8>) -> i64
    recommends
        s.len() >= 8,
{
    spec_u64_from_le(s) as i64
}

/// A round trip through the unsigned 64-bit bit pattern is the identity.
pub proof fn lemma_i64_cast_roundtrip(x: i64)
    ensures
        ((x as u64) as i64) == x,
{
    assert((x as u64) as i64 == x) by (bit_vector);
}

/// A round trip through the signed 64-bit bit pattern is the identity.
pub proof fn lemma_u64_cast_roundtrip(x: u64)
    ensures
        ((x as i64) as u64) == x,
{
    assert((x as i64) as u64 == x) by (bit_vector);
}

/// A round trip through the unsigned 32-bit bit pattern is the identity.
pub proof fn lemma_i32_cast_roundtrip(x: i32)
    ensures
        ((x as u32) as i32) == x,
{
    assert((x as u32) as i32 == x) by (bit_vector);
}

/// A round trip through the signed 32-bit bit pattern is the identity.
pub proof fn lemma_u32_cast_roundtrip(x: u32)
    ensures
        ((x as i32) as u32) == x,
{
    assert((x as i32) as u32 == x) by (bit_vector);
}

/// Both round trips for the unsigned 32-bit little-endian encoding: the
/// image is 4 bytes, decoding it recovers the value, and encoding the value
/// decoded from any 4 bytes reproduces those bytes.
pub proof fn lemma_auto_u32_le_bytes()
    ensures
        forall|x: u32|
            {
                &&& #[trigger] spec_u32_le_bytes(x).len() == 4
                &&& spec_u32_from_le(spec_u32_le_bytes(x)) == x
            },
        forall|s: Seq<u8>|
            s.len() == 4 ==> #[trigger] spec_u32_le_bytes(spec_u32_from_le(s)) == s,
{
    assert forall|x: u32|
        {
            &&& #[trigger] spec_u32_le_bytes(x).len() == 4
            &&& spec_u32_from_le(spec_u32_le_bytes(x)) == x
        } by {
        assert(((x & 0xff) as u8 as u32) | (((x >> 8) & 0xff) as u8 as u32) << 8 | (((x >> 16)
            & 0xff) as u8 as u32) << 16 | (((x >> 24) & 0xff) as u8 as u32) << 24 == x)
            by (bit_vector);
    }
    assert forall|s: Seq<u8>| s.len() == 4 implies #[trigger] spec_u32_le_bytes(
        spec_u32_from_le(s),
    ) == s by {
        let b0 = s[0];
        let b1 = s[1];
        let b2 = s[2];
        let b3 = s[3];
        let x = spec_u32_from_le(s);
        assert(x == (b0 as u32) | (b1 as u32) << 8 | (b2 as u32) << 16 | (b3 as u32) << 24);
        assert({
            let y = (b0 as u32) | (b1 as u32) << 8 | (b2 as u32) << 16 | (b3 as u32) << 24;
            &&& (y & 0xff) as u8 == b0
            &&& ((y >> 8) & 0xff) as u8 == b1
            &&& ((y >> 16) & 0xff) as u8 == b2
            &&& ((y >> 24) & 0xff) as u8 == b3
        }) by (bit_vector);
        assert(spec_u32_le_bytes(x) =~= s);
    }
}

/// Both round trips for the unsigned 64-bit little-endian encoding.
pub proof fn lemma_auto_u64_le_bytes()
    ensures
        forall|x: u64|
            {
                &&& #[trigger] spec_u64_le_bytes(x).len() == 8
                &&& spec_u64_from_le(spec_u64_le_bytes(x)) == x
            },
        forall|s: Seq<u8>|
            s.len() == 8 ==> #[trigger] spec_u64_le_bytes(spec_u64_from_le(s)) == s,
{
    assert forall|x: u64|
        {
            &&& #[trigger] spec_u64_le_bytes(x).len() == 8
            &&& spec_u64_from_le(spec_u64_le_bytes(x)) == x
        } by {
        assert(((x & 0xff) as u8 as u64) | (((x >> 8) & 0xff) as u8 as u64) << 8 | (((x >> 16)
            & 0xff) as u8 as u64) << 16 | (((x >> 24) & 0xff) as u8 as u64) << 24 | (((x >> 32)
            & 0xff) as u8 as u64) << 32 | (((x >> 40) & 0xff) as u8 as u64) << 40 | (((x >> 48)
            & 0xff) as u8 as u64) << 48 | (((x >> 56) & 0xff) as u8 as u64) << 56 == x)
            by (bit_vector);
    }
    assert forall|s: Seq<u8>| s.len() == 8 implies #[trigger] spec_u64_le_bytes(
        spec_u64_from_le(s),
    ) == s by {
        let b0 = s[0];
        let b1 = s[1];
        let b2 = s[2];
        let b3 = s[3];
        let b4 = s[4];
        let b5 = s[5];
        let b6 = s[6];
        let b7 = s[7];
        let x = spec_u64_from_le(s);
        assert(x == (b0 as u64) | (b1 as u64) << 8 | (b2 as u64) << 16 | (b3 as u64) << 24 | (
        b4 as u64) << 32 | (b5 as u64) << 40 | (b6 as u64) << 48 | (b7 as u64) << 56);
        assert({
            let y = (b0 as u64) | (b1 as u64) << 8 | (b2 as u64) << 16 | (b3 as u64) << 24 | (
            b4 as u64) << 32 | (b5 as u64) << 40 | (b6 as u64) << 48 | (b7 as u64) << 56;
            &&& (y & 0xff) as u8 == b0
            &&& ((y >> 8) & 0xff) as u8 == b1
            &&& ((y >> 16) & 0xff) as u8 == b2
            &&& ((y >> 24) & 0xff) as u8 == b3
            &&& ((y >> 32) & 0xff) as u8 == b4
            &&& ((y >> 40) & 0xff) as u8 == b5
            &&& ((y >> 48) & 0xff) as u8 == b6
            &&& ((y >> 56) & 0xff) as u8 == b7
        }) by (bit_vector);
        assert(spec_u64_le_bytes(x) =~= s);
    }
}

/// Both round trips for the signed 32-bit little-endian encoding.
pub proof fn lemma_auto_i32_le_bytes()
    ensures
        forall|x: i32|
            {
                &&& #[trigger] spec_i32_le_bytes(x).len() == 4
                &&& spec_i32_from_le(spec_i32_le_bytes(x)) == x
            },
        forall|s: Seq<u8>|
            s.len() == 4 ==> #[trigger] spec_i32_le_bytes(spec_i32_from_le(s)) == s,
{
    lemma_auto_u32_le_bytes();
    assert forall|x: i32|
        {
            &&& #[trigger] spec_i32_le_bytes(x).len() == 4
            &&& spec_i32_from_le(spec_i32_le_bytes(x)) == x
        } by {
        lemma_auto_u32_le_bytes();
        lemma_i32_cast_roundtrip(x);
        assert(spec_u32_le_bytes(x as u32).len() == 4);
        assert(spec_u32_from_le(spec_u32_le_bytes(x as u32)) == (x as u32));
    }
    assert forall|s: Seq<u8>| s.len() == 4 implies #[trigger] spec_i32_le_bytes(
        spec_i32_from_le(s),
    ) == s by {
        lemma_auto_u32_le_bytes();
        lemma_u32_cast_roundtrip(spec_u32_from_le(s));
    }
}

/// Both round trips for the signed 64-bit little-endian encoding.
pub proof fn lemma_auto_i64_le_bytes()
    ensures
        forall|x: i64|
            {
                &&& #[trigger] spec_i64_le_bytes(x).len() == 8
                &&& spec_i64_from_le(spec_i64_le_bytes(x)) == x
            },
        forall|s: Seq<u8>|
            s.len() == 8 ==> #[trigger] spec_i64_le_bytes(spec_i64_from_le(s)) == s,
{
    lemma_auto_u64_le_bytes();
    assert forall|x: i64|
        {
            &&& #[trigger] spec_i64_le_bytes(x).len() == 8
            &&& spec_i64_from_le(spec_i64_le_bytes(x)) == x
        } by {
        lemma_auto_u64_le_bytes();
        lemma_i64_cast_roundtrip(x);
        assert(spec_u64_le_bytes(x as u64).len() == 8);
        assert(spec_u64_from_le(spec_u64_le_bytes(x as u64)) == (x as u64));
    }
    assert forall|s: Seq<u8>| s.len() == 8 implies #[trigger] spec_i64_le_bytes(
        spec_i64_from_le(s),
    ) == s by {
        lemma_auto_u64_le_bytes();
        lemma_u64_cast_roundtrip(spec_u64_from_le(s));
    }
}

/// Four zero bytes decode to the unsigned 32-bit value zero.
pub proof fn lemma_u32_from_le_zero(s: Seq<u8>)
    requires
        s.len() >= 4,
        forall|i: int| 0 <= i < 4 ==> s[i] == 0u8,
    ensures
        spec_u32_from_le(s) == 0,
{
    assert((0u8 as u32) | (0u8 as u32) << 8 | (0u8 as u32) << 16 | (0u8 as u32) << 24 == 0)
        by (bit_vector);
}

/// A sequence's slice is the concatenation of its two halves.
pub proof fn lemma_subrange_split(s: Seq<u8>, a: int, b: int, c: int)
    requires
        0 <= a <= b <= c <= s.len(),
    ensures
        s.subrange(a, c) == s.subrange(a, b) + s.subrange(b, c),
{
    assert(s.subrange(a, c) =~= s.subrange(a, b) + s.subrange(b, c));
}

/// A concatenation's two slices are its parts.
pub proof fn lemma_concat_parts(a: Seq<u8>, b: Seq<u8>)
    ensures
        (a + b).subrange(0, a.len() as int) == a,
        (a + b).subrange(a.len() as int, (a.len() + b.len()) as int) == b,
{
    assert((a + b).subrange(0, a.len() as int) =~= a);
    assert((a + b).subrange(a.len() as int, (a.len() + b.len()) as int) =~= b);
}

/// A slice of a slice is the corresponding slice of the whole.
pub proof fn lemma_subrange_of_subrange(s: Seq<u8>, a: int, b: int, c: int, d: int)
    requires
        0 <= a <= c <= d <= b <= s.len(),
    ensures
        s.subrange(c, d) == s.subrange(a, b).subrange(c - a, d - a),
{
    assert(s.subrange(c, d) =~= s.subrange(a, b).subrange(c - a, d - a));
}

/// Reads the unsigned 32-bit value stored little-endian at `offset`.
pub fn read_u32_le(src: &[u8], offset: usize) -> (r: u32)
    requires
        offset + 4 <= src@.len(),
    ensures
        r == spec_u32_from_le(src@.subrange(offset as int, offset + 4)),
{
    let _n = src.len();
    let b0 = src[offset];
    let b1 = src[offset + 1];
    let b2 = src[offset + 2];
    let b3 = src[offset + 3];
    (b0 as u32) | (b1 as u32) << 8 | (b2 as u32) << 16 | (b3 as u32) << 24
}

/// Reads the unsigned 64-bit value stored little-endian at `offset`.
pub fn read_u64_le(src: &[u8], offset: usize) -> (r: u64)
    requires
        offset + 8 <= src@.len(),
    ensures
        r == spec_u64_from_le(src@.subrange(offset as int, offset + 8)),
{
    let _n = src.len();
    let b0 = src[offset];
    let b1 = src[offset + 1];
    let b2 = src[offset + 2];
    let b3 = src[offset + 3];
    let b4 = src[offset + 4];
    let b5 = src[offset + 5];
    let b6 = src[offset + 6];
    let b7 = src[offset + 7];
    (b0 as u64) | (b1 as u64) << 8 | (b2 as u64) << 16 | (b3 as u64) << 24 | (b4 as u64) << 32 | (
    b5 as u64) << 40 | (b6 as u64) << 48 | (b7 as u64) << 56
}

/// Reads the signed 32-bit value stored little-endian at `offset`.
pub fn read_i32_le(src: &[u8], offset: usize) -> (r: i32)
    requires
        offset + 4 <= src@.len(),
    ensures
        r == spec_i32_from_le(src@.subrange(offset as int, offset + 4)),
{
    let raw = read_u32_le(src, offset);
    #[verifier::truncate] (raw as i32)
}

/// Reads the signed 64-bit value stored little-endian at `offset`.
pub fn read_i64_le(src: &[u8], offset: usize) -> (r: i64)
    requires
        offset + 8 <= src@.len(),
    ensures
        r == spec_i64_from_le(src@.subrange(offset as int, offset + 8)),
{
    let raw = read_u64_le(src, offset);
    #[verifier::truncate] (raw as i64)
}

/// Writes the unsigned 32-bit value `x` little-endian at `offset`, leaving
/// every other byte of `dst` unchanged.
pub fn write_u32_le(dst: &mut Vec<u8>, offset: usize, x: u32)
    requires
        offset + 4 <= old(dst)@.len(),
    ensures
        final(dst)@.len() == old(dst)@.len(),
        final(dst)@.subrange(offset as int, offset + 4) == spec_u32_le_bytes(x),
        forall|i: int|
            0 <= i < final(dst)@.len() && !(offset <= i < offset + 4) ==> final(dst)@[i] == old(dst)@[i],
{
    let _n = dst.len();
    dst[offset] = #[verifier::truncate] ((x & 0xff) as u8);
    dst[offset + 1] = #[verifier::truncate] (((x >> 8) & 0xff) as u8);
    dst[offset + 2] = #[verifier::truncate] (((x >> 16) & 0xff) as u8);
    dst[offset + 3] = #[verifier::truncate] (((x >> 24) & 0xff) as u8);
    proof {
        assert(dst@.subrange(offset as int, offset + 4) =~= spec_u32_le_bytes(x));
    }
}

/// Writes the unsigned 64-bit value `x` little-endian at `offset`, leaving
/// every other byte of `dst` unchanged.
pub fn write_u64_le(dst: &mut Vec<u8>, offset: usize, x: u64)
    requires
        offset + 8 <= old(dst)@.len(),
    ensures
        final(dst)@.len() == old(dst)@.len(),
        final(dst)@.subrange(offset as int, offset + 8) == spec_u64_le_bytes(x),
        forall|i: int|
            0 <= i < final(dst)@.len() && !(offset <= i < offset + 8) ==> final(dst)@[i] == old(dst)@[i],
{
    let _n = dst.len();
    dst[offset] = #[verifier::truncate] ((x & 0xff) as u8);
    dst[offset + 1] = #[verifier::truncate] (((x >> 8) & 0xff) as u8);
    dst[offset + 2] = #[verifier::truncate] (((x >> 16) & 0xff) as u8);
    dst[offset + 3] = #[verifier::truncate] (((x >> 24) & 0xff) as u8);
    dst[offset + 4] = #[verifier::truncate] (((x >> 32) & 0xff) as u8);
    dst[offset + 5] = #[verifier::truncate] (((x >> 40) & 0xff) as u8);
    dst[offset + 6] = #[verifier::truncate] (((x >> 48) & 0xff) as u8);
    dst[offset + 7] = #[verifier::truncate] (((x >> 56) & 0xff) as u8);
    proof {
        assert(dst@.subrange(offset as int, offset + 8) =~= spec_u64_le_bytes(x));
    }
}

/// Writes the signed 32-bit value `x` little-endian at `offset`.
pub fn write_i32_le(dst: &mut Vec<u8>, offset: usize, x: i32)
    requires
        offset + 4 <= old(dst)@.len(),
    ensures
        final(dst)@.len() == old(dst)@.len(),
        final(dst)@.subrange(offset as int, offset + 4) == spec_i32_le_bytes(x),
        forall|i: int|
            0 <= i < final(dst)@.len() && !(offset <= i < offset + 4) ==> final(dst)@[i] == old(dst)@[i],
{
    write_u32_le(dst, offset, #[verifier::truncate] (x as u32));
}

/// Writes the signed 64-bit value `x` little-endian at `offset`.
pub fn write_i64_le(dst: &mut Vec<u8>, offset: usize, x: i64)
    requires
        offset + 8 <= old(dst)@.len(),
    ensures
        final(dst)@.len() == old(dst)@.len(),
        final(dst)@.subrange(offset as int, offset + 8) == spec_i64_le_bytes(x),
        forall|i: int|
            0 <= i < final(dst)@.len() && !(offset <= i < offset + 8) ==> final(dst)@[i] == old(dst)@[i],
{
    write_u64_le(dst, offset, #[verifier::truncate] (x as u64));
}

/// Copies all of `src` into `dst` starting at `offset`, leaving every other
/// byte of `dst` unchanged.
pub fn write_bytes(dst: &mut Vec<u8>, offset: usize, src: &[u8])
    requires
        offset + src@.len() <= old(dst)@.len(),
    ensures
        final(dst)@.len() == old(dst)@.len(),
        final(dst)@.subrange(offset as int, offset + src@.len()) == src@,
        forall|i: int|
            0 <= i < final(dst)@.len() && !(offset <= i < offset + src@.len()) ==> final(dst)@[i] == old(dst)@[i],
{
    let n = src.len();
    let _m = dst.len();
    let mut k: usize = 0;
    while k < n
        invariant
            n == src@.len(),
            k <= n,
            offset + n <= dst@.len(),
            offset + n <= usize::MAX,
            dst@.len() == old(dst)@.len(),
            forall|i: int| offset <= i < offset + k ==> dst@[i] == src@[i - offset],
            forall|i: int|
                0 <= i < dst@.len() && !(offset <= i < offset + k) ==> dst@[i] == old(dst)@[i],
        decreases n - k,
    {
        dst[offset + k] = src[k];
        k = k + 1;
    }
    proof {
        assert(dst@.subrange(offset as int, offset + src@.len()) =~= src@);
    }
}

/// Zeroes the bytes of `dst` in `[start, end)`, leaving the rest unchanged.
pub fn write_zeros(dst: &mut Vec<u8>, start: usize, end: usize)
    requires
        start <= end <= old(dst)@.len(),
    ensures
        final(dst)@.len() == old(dst)@.len(),
        forall|i: int| start <= i < end ==> final(dst)@[i] == 0u8,
        forall|i: int|
            0 <= i < final(dst)@.len() && !(start <= i < end) ==> final(dst)@[i] == old(dst)@[i],
{
    let mut k: usize = start;
    while k < end
        invariant
            start <= k <= end <= dst@.len(),
            dst@.len() == old(dst)@.len(),
            forall|i: int| start <= i < k ==> dst@[i] == 0u8,
            forall|i: int| 0 <= i < dst@.len() && !(start <= i < k) ==> dst@[i] == old(dst)@[i],
        decreases end - k,
    {
        dst[k] = 0;
        k = k + 1;
    }
}

} // verus!

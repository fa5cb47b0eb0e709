//! Big-endian byte-order views of the fixed-width integers that appear on
//! the wire: the 4-byte frame length prefix, 2-byte ports and 16-byte
//! connection identifiers.
use vstd::prelude::*;

verus! {

/// The two big-endian bytes of a 16-bit integer.
pub open spec fn u16_bytes(x: u16) -> Seq<u8> {
    seq![((x >> 8) & 0xff) as u8, (x & 0xff) as u8]
}

/// The four big-endian bytes of a 32-bit integer.
pub open spec fn u32_bytes(x: u32) -> Seq<u8> {
    seq![
        ((x >> 24) & 0xff) as u8,
        ((x >> 16) & 0xff) as u8,
        ((x >> 8) & 0xff) as u8,
        (x & 0xff) as u8,
    ]
}

/// The sixteen big-endian bytes of a 128-bit integer.
pub open spec fn u128_bytes(x: u128) -> Seq<u8> {
    seq![
        ((x >> 120) & 0xff) as u8,
        ((x >> 112) & 0xff) as u8,
        ((x >> 104) & 0xff) as u8,
        ((x >> 96) & 0xff) as u8,
        ((x >> 88) & 0xff) as u8,
        ((x >> 80) & 0xff) as u8,
        ((x >> 72) & 0xff) as u8,
        ((x >> 64) & 0xff) as u8,
        ((x >> 56) & 0xff) as u8,
        ((x >> 48) & 0xff) as u8,
        ((x >> 40) & 0xff) as u8,
        ((x >> 32) & 0xff) as u8,
        ((x >> 24) & 0xff) as u8,
        ((x >> 16) & 0xff) as u8,
        ((x >> 8) & 0xff) as u8,
        (x & 0xff) as u8,
    ]
}

/// The 16-bit integer read back from two big-endian bytes.
pub open spec fn u16_of_bytes(b0: u8, b1: u8) -> u16 {
    (((b0 as u16) << 8) | (b1 as u16)) as u16
}

/// The 32-bit integer read back from four big-endian bytes.
pub open spec fn u32_of_bytes(b0: u8, b1: u8, b2: u8, b3: u8) -> u32 {
    (((b0 as u32) << 24) | ((b1 as u32) << 16) | ((b2 as u32) << 8) | (b3 as u32)) as u32
}

/// The 128-bit integer read back from sixteen big-endian bytes.
pub open spec fn u128_of_bytes(b: Seq<u8>) -> u128
    recommends
        b.len() == 16,
{
    (((b[0] as u128) << 120) | ((b[1] as u128) << 112) | ((b[2] as u128) << 104)
        | ((b[3] as u128) << 96) | ((b[4] as u128) << 88) | ((b[5] as u128) << 80)
        | ((b[6] as u128) << 72) | ((b[7] as u128) << 64) | ((b[8] as u128) << 56)
        | ((b[9] as u128) << 48) | ((b[10] as u128) << 40) | ((b[11] as u128) << 32)
        | ((b[12] as u128) << 24) | ((b[13] as u128) << 16) | ((b[14] as u128) << 8)
        | (b[15] as u128)) as u128
}

/// Splitting a 16-bit integer into big-endian bytes and reading it back is
/// the identity.
pub proof fn lemma_u16_roundtrip(x: u16)
    ensures
        u16_of_bytes(u16_bytes(x)[0], u16_bytes(x)[1]) == x,
{
    assert((((((x >> 8) & 0xff) as u8) as u16) << 8 | (((x & 0xff) as u8) as u16)) == x)
        by (bit_vector);
}

/// Splitting a 32-bit integer into big-endian bytes and reading it back is
/// the identity.
pub proof fn lemma_u32_roundtrip(x: u32)
    ensures
        u32_of_bytes(u32_bytes(x)[0], u32_bytes(x)[1], u32_bytes(x)[2], u32_bytes(x)[3]) == x,
{
    assert(((((x >> 24) & 0xff) as u8 as u32) << 24 | (((x >> 16) & 0xff) as u8 as u32) << 16
        | (((x >> 8) & 0xff) as u8 as u32) << 8 | ((x & 0xff) as u8 as u32)) == x)
        by (bit_vector);
}

/// Splitting a 128-bit identifier into big-endian bytes and reading it back
/// is the identity.
pub proof fn lemma_u128_roundtrip(x: u128)
    ensures
        u128_of_bytes(u128_bytes(x)) == x,
{
    let b = u128_bytes(x);
    assert(b.len() == 16);
    assert(((((x >> 120) & 0xff) as u8 as u128) << 120 | (((x >> 112) & 0xff) as u8 as u128) << 112
        | (((x >> 104) & 0xff) as u8 as u128) << 104 | (((x >> 96) & 0xff) as u8 as u128) << 96
        | (((x >> 88) & 0xff) as u8 as u128) << 88 | (((x >> 80) & 0xff) as u8 as u128) << 80
        | (((x >> 72) & 0xff) as u8 as u128) << 72 | (((x >> 64) & 0xff) as u8 as u128) << 64
        | (((x >> 56) & 0xff) as u8 as u128) << 56 | (((x >> 48) & 0xff) as u8 as u128) << 48
        | (((x >> 40) & 0xff) as u8 as u128) << 40 | (((x >> 32) & 0xff) as u8 as u128) << 32
        | (((x >> 24) & 0xff) as u8 as u128) << 24 | (((x >> 16) & 0xff) as u8 as u128) << 16
        | (((x >> 8) & 0xff) as u8 as u128) << 8 | ((x & 0xff) as u8 as u128)) == x)
        by (bit_vector);
}

/// Write the two big-endian bytes of a 16-bit integer.
pub fn u16_to_vec(x: u16) -> (r: Vec<u8>)
    ensures
        r@ == u16_bytes(x),
{
    let mut v: Vec<u8> = Vec::new();
    proof {
        assert((x >> 8) & 0xff < 256 && x & 0xff < 256) by (bit_vector);
    }
    v.push(((x >> 8) & 0xff) as u8);
    v.push((x & 0xff) as u8);
    assert(v@ =~= u16_bytes(x));
    v
}

/// Read a 16-bit integer back from two big-endian bytes.
pub fn u16_from_bytes(b0: u8, b1: u8) -> (r: u16)
    ensures
        r == u16_of_bytes(b0, b1),
{
    ((b0 as u16) << 8) | (b1 as u16)
}

/// Write the four big-endian bytes of a 32-bit integer.
pub fn u32_to_vec(x: u32) -> (r: Vec<u8>)
    ensures
        r@ == u32_bytes(x),
{
    let mut v: Vec<u8> = Vec::new();
    proof {
        assert((x >> 24) & 0xff < 256 && (x >> 16) & 0xff < 256 && (x >> 8) & 0xff < 256 && x
            & 0xff < 256) by (bit_vector);
    }
    v.push(((x >> 24) & 0xff) as u8);
    v.push(((x >> 16) & 0xff) as u8);
    v.push(((x >> 8) & 0xff) as u8);
    v.push((x & 0xff) as u8);
    assert(v@ =~= u32_bytes(x));
    v
}

/// Read a 32-bit integer back from four big-endian bytes.
pub fn u32_from_bytes(b0: u8, b1: u8, b2: u8, b3: u8) -> (r: u32)
    ensures
        r == u32_of_bytes(b0, b1, b2, b3),
{
    ((b0 as u32) << 24) | ((b1 as u32) << 16) | ((b2 as u32) << 8) | (b3 as u32)
}

/// Append the sixteen big-endian bytes of a 128-bit identifier.
pub fn u128_push_bytes(v: &mut Vec<u8>, x: u128)
    ensures
        final(v)@ == old(v)@ + u128_bytes(x),
{
    proof {
        assert((x >> 120) & 0xff < 256 && (x >> 112) & 0xff < 256 && (x >> 104) & 0xff < 256 && (x
            >> 96) & 0xff < 256 && (x >> 88) & 0xff < 256 && (x >> 80) & 0xff < 256 && (x >> 72)
            & 0xff < 256 && (x >> 64) & 0xff < 256 && (x >> 56) & 0xff < 256 && (x >> 48) & 0xff
            < 256 && (x >> 40) & 0xff < 256 && (x >> 32) & 0xff < 256 && (x >> 24) & 0xff < 256 && (
        x >> 16) & 0xff < 256 && (x >> 8) & 0xff < 256 && x & 0xff < 256) by (bit_vector);
    }
    v.push(((x >> 120) & 0xff) as u8);
    v.push(((x >> 112) & 0xff) as u8);
    v.push(((x >> 104) & 0xff) as u8);
    v.push(((x >> 96) & 0xff) as u8);
    v.push(((x >> 88) & 0xff) as u8);
    v.push(((x >> 80) & 0xff) as u8);
    v.push(((x >> 72) & 0xff) as u8);
    v.push(((x >> 64) & 0xff) as u8);
    v.push(((x >> 56) & 0xff) as u8);
    v.push(((x >> 48) & 0xff) as u8);
    v.push(((x >> 40) & 0xff) as u8);
    v.push(((x >> 32) & 0xff) as u8);
    v.push(((x >> 24) & 0xff) as u8);
    v.push(((x >> 16) & 0xff) as u8);
    v.push(((x >> 8) & 0xff) as u8);
    v.push((x & 0xff) as u8);
    assert(v@ =~= old(v)@ + u128_bytes(x));
}

/// Read a 128-bit identifier back from sixteen big-endian bytes taken at an
/// offset of a buffer.
pub fn u128_read_bytes(b: &[u8], at: usize) -> (r: u128)
    requires
        at + 16 <= b@.len(),
    ensures
        r == u128_of_bytes(b@.subrange(at as int, at + 16)),
{
    let r = ((b[at] as u128) << 120) | ((b[at + 1] as u128) << 112) | ((b[at + 2] as u128) << 104)
        | ((b[at + 3] as u128) << 96) | ((b[at + 4] as u128) << 88) | ((b[at + 5] as u128) << 80)
        | ((b[at + 6] as u128) << 72) | ((b[at + 7] as u128) << 64) | ((b[at + 8] as u128) << 56)
        | ((b[at + 9] as u128) << 48) | ((b[at + 10] as u128) << 40) | ((b[at + 11] as u128) << 32)
        | ((b[at + 12] as u128) << 24) | ((b[at + 13] as u128) << 16) | ((b[at + 14] as u128) << 8)
        | (b[at + 15] as u128);
    proof {
        let s = b@.subrange(at as int, at + 16);
        assert(s[0] == b@[at as int] && s[1] == b@[at + 1] && s[2] == b@[at + 2] && s[3] == b@[at
            + 3] && s[4] == b@[at + 4] && s[5] == b@[at + 5] && s[6] == b@[at + 6] && s[7] == b@[at
            + 7] && s[8] == b@[at + 8] && s[9] == b@[at + 9] && s[10] == b@[at + 10] && s[11]
            == b@[at + 11] && s[12] == b@[at + 12] && s[13] == b@[at + 13] && s[14] == b@[at + 14]
            && s[15] == b@[at + 15]);
    }
    r
}

} // verus!

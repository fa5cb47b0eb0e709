//! Lowercase hexadecimal rendering of byte strings, and the canonical
//! 8-4-4-4-12 text form of a 128-bit identifier. Challenge nonces are keyed
//! over their canonical text, and tokens travel as hex digits.
use vstd::prelude::*;

use crate::wire::{u128_bytes, u128_push_bytes};

verus! {

/// ASCII code of the lowercase hexadecimal digit of a value below 16.
pub open spec fn hex_digit(n: u8) -> u8
    recommends
        n < 16,
{
    if n < 10 {
        (0x30 + n) as u8
    } else {
        (0x57 + n) as u8
    }
}

/// The lowercase hexadecimal rendering of a byte string: two digits per
/// byte, high nibble first.
pub open spec fn hex_of(s: Seq<u8>) -> Seq<u8> {
    Seq::new(
        s.len() * 2,
        |i: int|
            if i % 2 == 0 {
                hex_digit((s[i / 2] >> 4) as u8)
            } else {
                hex_digit((s[i / 2] & 0xf) as u8)
            },
    )
}

/// ASCII code of the dash that separates identifier groups.
pub const DASH: u8 = 0x2d;

/// The canonical text of a 128-bit identifier: its 32 hexadecimal digits in
/// five dash-separated groups of 8, 4, 4, 4 and 12.
pub open spec fn uuid_ascii(x: u128) -> Seq<u8> {
    let h = hex_of(u128_bytes(x));
    h.subrange(0, 8) + seq![DASH] + h.subrange(8, 12) + seq![DASH] + h.subrange(12, 16)
        + seq![DASH] + h.subrange(16, 20) + seq![DASH] + h.subrange(20, 32)
}

/// Render a byte string as lowercase hexadecimal digits.
pub fn hex_bytes(s: &[u8]) -> (r: Vec<u8>)
    ensures
        r@ == hex_of(s@),
{
    let mut v: Vec<u8> = Vec::new();
    let mut i: usize = 0;
    while i < s.len()
        invariant
            i <= s@.len(),
            v@.len() == 2 * i,
            forall|j: int| 0 <= j < 2 * i ==> v@[j] == #[trigger] hex_of(s@)[j],
        decreases s@.len() - i,
    {
        let b = s[i];
        let hi = b >> 4;
        let lo = b & 0xf;
        proof {
            assert(b >> 4 < 16 && b & 0xf < 16) by (bit_vector);
        }
        let dh = if hi < 10 {
            0x30 + hi
        } else {
            0x57 + hi
        };
        let dl = if lo < 10 {
            0x30 + lo
        } else {
            0x57 + lo
        };
        v.push(dh);
        v.push(dl);
        proof {
            assert(hex_of(s@)[2 * i] == hex_digit((s@[i as int] >> 4) as u8));
            assert(hex_of(s@)[2 * i + 1] == hex_digit((s@[i as int] & 0xf) as u8));
        }
        i = i + 1;
    }
    proof {
        assert(v@ =~= hex_of(s@));
    }
    v
}

/// Append a range of a byte slice to a vector.
fn push_range(v: &mut Vec<u8>, s: &[u8], from: usize, to: usize)
    requires
        from <= to <= s@.len(),
    ensures
        final(v)@ == old(v)@ + s@.subrange(from as int, to as int),
{
    let mut i: usize = from;
    while i < to
        invariant
            from <= i <= to <= s@.len(),
            v@ == old(v)@ + s@.subrange(from as int, i as int),
        decreases to - i,
    {
        v.push(s[i]);
        proof {
            assert(old(v)@ + s@.subrange(from as int, i as int) + seq![s@[i as int]] =~= old(
                v,
            )@ + s@.subrange(from as int, i + 1));
        }
        i = i + 1;
    }
}

/// Render a 128-bit identifier in its canonical dash-separated text form.
pub fn uuid_to_ascii(x: u128) -> (r: Vec<u8>)
    ensures
        r@ == uuid_ascii(x),
{
    let mut raw: Vec<u8> = Vec::new();
    u128_push_bytes(&mut raw, x);
    assert(raw@ =~= u128_bytes(x));
    let h = hex_bytes(raw.as_slice());
    let mut v: Vec<u8> = Vec::new();
    push_range(&mut v, h.as_slice(), 0, 8);
    v.push(DASH);
    push_range(&mut v, h.as_slice(), 8, 12);
    v.push(DASH);
    push_range(&mut v, h.as_slice(), 12, 16);
    v.push(DASH);
    push_range(&mut v, h.as_slice(), 16, 20);
    v.push(DASH);
    push_range(&mut v, h.as_slice(), 20, 32);
    assert(v@ =~= uuid_ascii(x));
    v
}

} // verus!

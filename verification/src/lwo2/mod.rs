pub mod sub_tags;
pub mod tags;

use crate::decode::{available, be16, exact, read_u16, spec_u16, Decoded, Parsed};
use vstd::prelude::*;

verus! {

/// The largest value that a variable-width index can hold.
pub const VX_MAX: u32 = 0x00ff_ffff;

/// The variable-width index at `pos`. An index is an entry's number in an
/// array of items (points or polygons), or the identifier of an item of a
/// collection (clips or envelopes). One 16-bit value `k` is read; below
/// 0xFF00 it is the index itself, in two bytes. Otherwise a second 16-bit
/// value `w` follows: the top byte of `k` only marks the four-byte form, and the
/// index is made of the low byte of `k` above the sixteen bits of `w`.
pub open spec fn spec_vx(s: Seq<u8>, pos: int) -> Parsed<u32> {
    match spec_u16(s, pos) {
        Err(e) => Err(e),
        Ok((k, p)) => if k < 0xff00 {
            Ok((k as u32, p))
        } else {
            match spec_u16(s, p) {
                Err(e) => Err(e),
                Ok((w, q)) => Ok(((((k as u32) & 0xff) << 16) | (w as u32), q)),
            }
        },
    }
}

/// Reads a variable-width index of two or four bytes.
pub fn vx(data: &[u8], pos: usize) -> (r: Decoded<u32>)
    ensures
        exact(r, spec_vx(data@, pos as int)),
        match r {
            Ok((v, end)) => v <= VX_MAX && (end == pos + 2 || end == pos + 4),
            Err(_) => true,
        },
{
    let (k, p) = read_u16(data, pos)?;
    if k < 0xff00 {
        Ok((k as u32, p))
    } else {
        let (w, q) = read_u16(data, p)?;
        let v: u32 = (((k as u32) & 0xff) << 16) | (w as u32);
        assert(v <= 0x00ff_ffff) by (bit_vector)
            requires
                v == (((k as u32) & 0xff) << 16) | (w as u32),
        ;
        Ok((v, q))
    }
}

/// Every `k` below 0xFF00, written as two bytes with the most significant
/// first, is read back as `k`, and exactly those two bytes are consumed.
pub proof fn lemma_vx_two_bytes(s: Seq<u8>, pos: int, k: u16)
    requires
        k < 0xff00,
        available(s, pos, 2),
        s[pos] == k / 256,
        s[pos + 1] == k % 256,
    ensures
        spec_vx(s, pos) == Ok::<(u32, int), crate::error::DecodeError>((k as u32, pos + 2)),
{
    assert(be16(s[pos], s[pos + 1]) == k);
}

/// Every `v` of at most 24 bits has a four-byte form, the marker byte 0xFF
/// followed by the three bytes of `v` with the most significant first, that
/// is read back as `v`, and exactly those four bytes are consumed.
pub proof fn lemma_vx_four_bytes(s: Seq<u8>, pos: int, v: u32)
    requires
        v <= VX_MAX,
        available(s, pos, 4),
        s[pos] == 0xff,
        s[pos + 1] == v / 0x1_0000,
        s[pos + 2] == (v / 256) % 256,
        s[pos + 3] == v % 256,
    ensures
        spec_vx(s, pos) == Ok::<(u32, int), crate::error::DecodeError>((v, pos + 4)),
{
    let k = be16(s[pos], s[pos + 1]);
    let w = be16(s[pos + 2], s[pos + 3]);
    let hi: u32 = v / 0x1_0000;
    assert(k == 0xff00 + hi);
    assert(w == v % 0x1_0000);
    assert((((k as u32) & 0xff) << 16) | (w as u32) == v) by (bit_vector)
        requires
            v <= 0x00ff_ffff,
            k as u32 == 0xff00 + v / 0x1_0000,
            w as u32 == v % 0x1_0000,
    ;
}

/// A variable-width index that is stored only where `present` holds, and
/// is zero where it is not stored.
pub open spec fn spec_vx_if(present: bool, s: Seq<u8>, pos: int) -> Parsed<u32> {
    if present {
        spec_vx(s, pos)
    } else {
        Ok((0, pos))
    }
}

/// Reads a variable-width index that is stored only where `present` holds.
pub fn vx_if(present: bool, data: &[u8], pos: usize) -> (r: Decoded<u32>)
    ensures
        exact(r, spec_vx_if(present, data@, pos as int)),
{
    if present {
        vx(data, pos)
    } else {
        Ok((0, pos))
    }
}

} // verus!

use crate::decode::{
    agrees, align, read_u16, read_u32, skip, spec_align, spec_skip, spec_u16, spec_u32, Decode,
    Decoded, Element, Parsed,
};
use crate::error::DecodeError;
use vstd::prelude::*;

verus! {

/// The cursor position after a framed payload that begins at `start` and
/// is declared `length` bytes long. The cursor is placed `length` bytes
/// after `start`, whatever the payload's decoder consumed, and then moved
/// over one pad byte where that position is odd. Both movements have to
/// stay inside the input.
pub open spec fn spec_frame_end(s: Seq<u8>, start: int, length: int) -> Result<int, DecodeError> {
    match spec_skip(s, start, length) {
        Err(e) => Err(e),
        Ok(end) => spec_align(s, end),
    }
}

/// Places the cursor after a framed payload.
pub fn frame_end(data: &[u8], start: usize, length: u32) -> (r: Result<usize, DecodeError>)
    ensures
        match r {
            Ok(end) => spec_frame_end(data@, start as int, length as int) == Ok::<int, DecodeError>(
                end as int,
            ),
            Err(e) => spec_frame_end(data@, start as int, length as int) == Err::<int, DecodeError>(
                e,
            ),
        },
{
    let end = skip(data, start, length as u64)?;
    align(data, end)
}

/// A top-level framed record: the declared length of the payload, in four
/// bytes, and the payload decoded with that length as its context.
#[derive(Debug, PartialEq, Eq)]
pub struct Chunk<D> {
    pub length: u32,
    pub data: D,
}

pub struct ChunkView<V> {
    pub length: u32,
    pub data: V,
}

impl<D: View> View for Chunk<D> {
    type V = ChunkView<D::V>;

    open spec fn view(&self) -> ChunkView<D::V> {
        ChunkView { length: self.length, data: self.data@ }
    }
}

/// The top-level framed record at `pos`: the four-byte length, the
/// payload decoded with that length as its context, and the position after
/// the frame. Where the payload's decoder stopped does not matter.
#[verifier::opaque]
pub open spec fn spec_chunk<D: Decode<u32>>(s: Seq<u8>, pos: int) -> Parsed<ChunkView<D::V>> {
    match spec_u32(s, pos) {
        Err(e) => Err(e),
        Ok((length, start)) => match D::spec_decode(s, start, length) {
            Err(e) => Err(e),
            Ok((data, _)) => match spec_frame_end(s, start, length as int) {
                Err(e) => Err(e),
                Ok(end) => Ok((ChunkView { length, data }, end)),
            },
        },
    }
}

impl<D: Decode<u32>> Decode<()> for Chunk<D> {
    open spec fn spec_decode(s: Seq<u8>, pos: int, _args: ()) -> Parsed<ChunkView<D::V>> {
        spec_chunk::<D>(s, pos)
    }

    fn decode(data: &[u8], pos: usize, _args: ()) -> (r: Decoded<Self>) {
        reveal(spec_chunk);
        let (length, start) = read_u32(data, pos)?;
        let (payload, _) = D::decode(data, start, length)?;
        let end = frame_end(data, start, length)?;
        Ok((Chunk { length, data: payload }, end))
    }
}

impl<D: Decode<u32>> Element<()> for Chunk<D> {
    proof fn lemma_advances(s: Seq<u8>, pos: int, _args: ()) {
        lemma_chunk_extent::<D>(s, pos);
    }
}

impl<D> core::ops::Deref for Chunk<D> {
    type Target = D;

    /// The payload of the record.
    fn deref(&self) -> (r: &D)
        ensures
            *r == self.data,
    {
        &self.data
    }
}

/// A nested framed record: the declared length of the payload, in two
/// bytes, and the payload decoded with that length as its context.
#[derive(Debug, PartialEq, Eq)]
pub struct SubChunk<D> {
    pub length: u16,
    pub data: D,
}

pub struct SubChunkView<V> {
    pub length: u16,
    pub data: V,
}

impl<D: View> View for SubChunk<D> {
    type V = SubChunkView<D::V>;

    open spec fn view(&self) -> SubChunkView<D::V> {
        SubChunkView { length: self.length, data: self.data@ }
    }
}

/// The nested framed record at `pos`: the two-byte length, the payload
/// decoded with that length as its context, and the position after the
/// frame. Where the payload's decoder stopped does not matter.
#[verifier::opaque]
pub open spec fn spec_sub_chunk<D: Decode<u32>>(s: Seq<u8>, pos: int) -> Parsed<
    SubChunkView<D::V>,
> {
    match spec_u16(s, pos) {
        Err(e) => Err(e),
        Ok((length, start)) => match D::spec_decode(s, start, length as u32) {
            Err(e) => Err(e),
            Ok((data, _)) => match spec_frame_end(s, start, length as int) {
                Err(e) => Err(e),
                Ok(end) => Ok((SubChunkView { length, data }, end)),
            },
        },
    }
}

impl<D: Decode<u32>> Decode<()> for SubChunk<D> {
    open spec fn spec_decode(s: Seq<u8>, pos: int, _args: ()) -> Parsed<SubChunkView<D::V>> {
        spec_sub_chunk::<D>(s, pos)
    }

    fn decode(data: &[u8], pos: usize, _args: ()) -> (r: Decoded<Self>) {
        reveal(spec_sub_chunk);
        let (length, start) = read_u16(data, pos)?;
        let (payload, _) = D::decode(data, start, length as u32)?;
        let end = frame_end(data, start, length as u32)?;
        Ok((SubChunk { length, data: payload }, end))
    }
}

impl<D: Decode<u32>> Element<()> for SubChunk<D> {
    proof fn lemma_advances(s: Seq<u8>, pos: int, _args: ()) {
        lemma_sub_chunk_extent::<D>(s, pos);
    }
}

impl<D> core::ops::Deref for SubChunk<D> {
    type Target = D;

    /// The payload of the record.
    fn deref(&self) -> (r: &D)
        ensures
            *r == self.data,
    {
        &self.data
    }
}

/// The number of bytes that a framed payload of `length` bytes beginning
/// at `start` takes up with its pad byte.
pub open spec fn framed_size(start: int, length: int) -> int {
    if (start + length) % 2 == 0 {
        length
    } else {
        length + 1
    }
}

/// A top-level framed record that decodes takes up its four-byte length
/// field, the declared length and the pad byte, however many bytes the
/// decoder of its payload consumed.
pub proof fn lemma_chunk_extent<D: Decode<u32>>(s: Seq<u8>, pos: int)
    ensures
        spec_chunk::<D>(s, pos) matches Ok((chunk, end)) ==> end == pos + 4 + framed_size(
            pos + 4,
            chunk.length as int,
        ) && 0 <= pos && end <= s.len(),
{
    reveal(spec_chunk);
}

/// A nested framed record that decodes takes up its two-byte length field,
/// the declared length and the pad byte, however many bytes the decoder of
/// its payload consumed.
pub proof fn lemma_sub_chunk_extent<D: Decode<u32>>(s: Seq<u8>, pos: int)
    ensures
        spec_sub_chunk::<D>(s, pos) matches Ok((chunk, end)) ==> end == pos + 2 + framed_size(
            pos + 2,
            chunk.length as int,
        ) && 0 <= pos && end <= s.len(),
{
    reveal(spec_sub_chunk);
}

} // verus!

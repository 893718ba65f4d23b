use crate::decode::{
    ascii, Decode, Decoded, Element, Float, Parsed, read_tag, read_u16, same_tag, spec_tag,
    spec_u16, tags_equal, views,
};
use crate::error::DecodeError;
use crate::helpers::{count, spec_count};
use crate::iff::{lemma_sub_chunk_extent, SubChunk, SubChunkView};
use crate::lwo2::sub_tags::blocks::{Algorithm, AlgorithmView};
use vstd::prelude::*;

verus! {

/// One sub-record of a procedural texture.
#[derive(Debug, PartialEq, Eq)]
pub enum ProceduralTextureSubChunk {
    /// The axis along which the texture is applied.
    Axis(SubChunk<Axis>),
    /// The value or colour that the texture modulates.
    BasicValue(SubChunk<BasicValue>),
    /// The procedure and its parameters.
    AlgorithmAndParameters(SubChunk<Algorithm>),
}

pub enum ProceduralTextureSubChunkView {
    Axis(SubChunkView<Axis>),
    BasicValue(SubChunkView<BasicValueView>),
    AlgorithmAndParameters(SubChunkView<AlgorithmView>),
}

impl View for ProceduralTextureSubChunk {
    type V = ProceduralTextureSubChunkView;

    open spec fn view(&self) -> ProceduralTextureSubChunkView {
        match self {
            ProceduralTextureSubChunk::Axis(chunk) => ProceduralTextureSubChunkView::Axis(chunk@),
            ProceduralTextureSubChunk::BasicValue(chunk) =>
                ProceduralTextureSubChunkView::BasicValue(chunk@),
            ProceduralTextureSubChunk::AlgorithmAndParameters(chunk) =>
                ProceduralTextureSubChunkView::AlgorithmAndParameters(chunk@),
        }
    }
}

impl Decode<()> for ProceduralTextureSubChunk {
    open spec fn spec_decode(s: Seq<u8>, pos: int, _args: ()) -> Parsed<
        ProceduralTextureSubChunkView,
    > {
        match spec_tag(s, pos) {
            Err(e) => Err(e),
            Ok((tag, start)) => if same_tag(tag, ascii('A', 'X', 'I', 'S')) {
                match SubChunk::<Axis>::spec_decode(s, start, ()) {
                    Err(e) => Err(e),
                    Ok((chunk, end)) => Ok((ProceduralTextureSubChunkView::Axis(chunk), end)),
                }
            } else if same_tag(tag, ascii('V', 'A', 'L', 'U')) {
                match SubChunk::<BasicValue>::spec_decode(s, start, ()) {
                    Err(e) => Err(e),
                    Ok((chunk, end)) => Ok((ProceduralTextureSubChunkView::BasicValue(chunk), end)),
                }
            } else if same_tag(tag, ascii('F', 'U', 'N', 'C')) {
                match SubChunk::<Algorithm>::spec_decode(s, start, ()) {
                    Err(e) => Err(e),
                    Ok((chunk, end)) =>
                        Ok((ProceduralTextureSubChunkView::AlgorithmAndParameters(chunk), end)),
                }
            } else {
                Err(DecodeError::UnrecognizedTag { pos: pos as u64, tag })
            },
        }
    }

    fn decode(data: &[u8], pos: usize, _args: ()) -> (r: Decoded<ProceduralTextureSubChunk>) {
        let (tag, start) = read_tag(data, pos)?;
        if tags_equal(&tag, &ascii('A', 'X', 'I', 'S')) {
            let (chunk, end) = SubChunk::<Axis>::decode(data, start, ())?;
            Ok((ProceduralTextureSubChunk::Axis(chunk), end))
        } else if tags_equal(&tag, &ascii('V', 'A', 'L', 'U')) {
            let (chunk, end) = SubChunk::<BasicValue>::decode(data, start, ())?;
            Ok((ProceduralTextureSubChunk::BasicValue(chunk), end))
        } else if tags_equal(&tag, &ascii('F', 'U', 'N', 'C')) {
            let (chunk, end) = SubChunk::<Algorithm>::decode(data, start, ())?;
            Ok((ProceduralTextureSubChunk::AlgorithmAndParameters(chunk), end))
        } else {
            Err(DecodeError::UnrecognizedTag { pos: pos as u64, tag })
        }
    }
}

impl Element<()> for ProceduralTextureSubChunk {
    proof fn lemma_advances(s: Seq<u8>, pos: int, _args: ()) {
        match spec_tag(s, pos) {
            Err(_) => {},
            Ok((tag, start)) => {
                if same_tag(tag, ascii('A', 'X', 'I', 'S')) {
                    lemma_sub_chunk_extent::<Axis>(s, start);
                } else if same_tag(tag, ascii('V', 'A', 'L', 'U')) {
                    lemma_sub_chunk_extent::<BasicValue>(s, start);
                } else if same_tag(tag, ascii('F', 'U', 'N', 'C')) {
                    lemma_sub_chunk_extent::<Algorithm>(s, start);
                }
            },
        }
    }
}

/// The value of a procedural texture: one number, or three for a colour.
#[derive(Debug, PartialEq, Eq)]
pub struct BasicValue {
    pub value: Vec<Float>,
}

pub struct BasicValueView {
    pub value: Seq<Float>,
}

impl View for BasicValue {
    type V = BasicValueView;

    open spec fn view(&self) -> BasicValueView {
        BasicValueView { value: self.value@ }
    }
}

impl Decode<u32> for BasicValue {
    /// One number for every four bytes of the declared length.
    open spec fn spec_decode(s: Seq<u8>, pos: int, length: u32) -> Parsed<BasicValueView> {
        match spec_count::<Float, ()>(s, pos, (length / 4) as nat, ()) {
            Err(e) => Err(e),
            Ok((value, end)) => Ok((BasicValueView { value }, end)),
        }
    }

    fn decode(data: &[u8], pos: usize, length: u32) -> (r: Decoded<BasicValue>) {
        let (value, end) = count::<Float, ()>(data, pos, (length / 4) as u64, ())?;
        assert(views(value@) =~= value@);
        Ok((BasicValue { value }, end))
    }
}

/// The axis of a procedural texture: 0, 1 or 2 for X, Y or Z.
#[derive(Debug, Clone, Copy, PartialEq, Eq)]
pub struct Axis {
    pub axis: u16,
}

impl View for Axis {
    type V = Axis;

    open spec fn view(&self) -> Axis {
        *self
    }
}

impl Decode<u32> for Axis {
    open spec fn spec_decode(s: Seq<u8>, pos: int, _length: u32) -> Parsed<Axis> {
        match spec_u16(s, pos) {
            Err(e) => Err(e),
            Ok((axis, end)) => Ok((Axis { axis }, end)),
        }
    }

    fn decode(data: &[u8], pos: usize, _length: u32) -> (r: Decoded<Axis>) {
        let (axis, end) = read_u16(data, pos)?;
        Ok((Axis { axis }, end))
    }
}

} // verus!

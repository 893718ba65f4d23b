use crate::decode::{
    ascii, Decode, Decoded, Element, Float, Parsed, read_float, read_tag, read_u16, read_vec4,
    same_tag, spec_float, spec_tag, spec_u16, spec_vec4, tags_equal, views,
};
use crate::error::DecodeError;
use crate::helpers::{count, spec_count};
use crate::iff::{lemma_sub_chunk_extent, SubChunk, SubChunkView};
use crate::lwo2::sub_tags::{Name, NameView};
use vstd::prelude::*;

verus! {

/// One sub-record of a gradient texture.
#[derive(Debug, PartialEq, Eq)]
pub enum GradientTextureSubChunk {
    /// The input parameter of the gradient.
    ParameterName(SubChunk<Name>),
    /// The item that the input parameter refers to.
    ItemName(SubChunk<Name>),
    /// The start of the input range.
    GradientRangeStart(SubChunk<GradientRange>),
    /// The end of the input range.
    GradientRangeEnd(SubChunk<GradientRange>),
    /// How the gradient goes on outside its range.
    RepeatMode(SubChunk<RepeatMode>),
    /// The keys of the gradient.
    KeyValues(SubChunk<KeyValues>),
    /// The interpolation of each key.
    KeyParameters(SubChunk<KeyParameters>),
}

pub enum GradientTextureSubChunkView {
    ParameterName(SubChunkView<NameView>),
    ItemName(SubChunkView<NameView>),
    GradientRangeStart(SubChunkView<GradientRange>),
    GradientRangeEnd(SubChunkView<GradientRange>),
    RepeatMode(SubChunkView<RepeatMode>),
    KeyValues(SubChunkView<KeyValuesView>),
    KeyParameters(SubChunkView<KeyParametersView>),
}

impl View for GradientTextureSubChunk {
    type V = GradientTextureSubChunkView;

    open spec fn view(&self) -> GradientTextureSubChunkView {
        match self {
            GradientTextureSubChunk::ParameterName(chunk) =>
                GradientTextureSubChunkView::ParameterName(chunk@),
            GradientTextureSubChunk::ItemName(chunk) =>
                GradientTextureSubChunkView::ItemName(chunk@),
            GradientTextureSubChunk::GradientRangeStart(chunk) =>
                GradientTextureSubChunkView::GradientRangeStart(chunk@),
            GradientTextureSubChunk::GradientRangeEnd(chunk) =>
                GradientTextureSubChunkView::GradientRangeEnd(chunk@),
            GradientTextureSubChunk::RepeatMode(chunk) =>
                GradientTextureSubChunkView::RepeatMode(chunk@),
            GradientTextureSubChunk::KeyValues(chunk) =>
                GradientTextureSubChunkView::KeyValues(chunk@),
            GradientTextureSubChunk::KeyParameters(chunk) =>
                GradientTextureSubChunkView::KeyParameters(chunk@),
        }
    }
}

impl Decode<()> for GradientTextureSubChunk {
    open spec fn spec_decode(s: Seq<u8>, pos: int, _args: ()) -> Parsed<
        GradientTextureSubChunkView,
    > {
        match spec_tag(s, pos) {
            Err(e) => Err(e),
            Ok((tag, start)) => if same_tag(tag, ascii('P', 'N', 'A', 'M')) {
                match SubChunk::<Name>::spec_decode(s, start, ()) {
                    Err(e) => Err(e),
                    Ok((chunk, end)) =>
                        Ok((GradientTextureSubChunkView::ParameterName(chunk), end)),
                }
            } else if same_tag(tag, ascii('I', 'N', 'A', 'M')) {
                match SubChunk::<Name>::spec_decode(s, start, ()) {
                    Err(e) => Err(e),
                    Ok((chunk, end)) => Ok((GradientTextureSubChunkView::ItemName(chunk), end)),
                }
            } else if same_tag(tag, ascii('G', 'R', 'S', 'T')) {
                match SubChunk::<GradientRange>::spec_decode(s, start, ()) {
                    Err(e) => Err(e),
                    Ok((chunk, end)) =>
                        Ok((GradientTextureSubChunkView::GradientRangeStart(chunk), end)),
                }
            } else if same_tag(tag, ascii('G', 'R', 'E', 'N')) {
                match SubChunk::<GradientRange>::spec_decode(s, start, ()) {
                    Err(e) => Err(e),
                    Ok((chunk, end)) =>
                        Ok((GradientTextureSubChunkView::GradientRangeEnd(chunk), end)),
                }
            } else if same_tag(tag, ascii('G', 'R', 'P', 'T')) {
                match SubChunk::<RepeatMode>::spec_decode(s, start, ()) {
                    Err(e) => Err(e),
                    Ok((chunk, end)) => Ok((GradientTextureSubChunkView::RepeatMode(chunk), end)),
                }
            } else if same_tag(tag, ascii('F', 'K', 'E', 'Y')) {
                match SubChunk::<KeyValues>::spec_decode(s, start, ()) {
                    Err(e) => Err(e),
                    Ok((chunk, end)) => Ok((GradientTextureSubChunkView::KeyValues(chunk), end)),
                }
            } else if same_tag(tag, ascii('I', 'K', 'E', 'Y')) {
                match SubChunk::<KeyParameters>::spec_decode(s, start, ()) {
                    Err(e) => Err(e),
                    Ok((chunk, end)) =>
                        Ok((GradientTextureSubChunkView::KeyParameters(chunk), end)),
                }
            } else {
                Err(DecodeError::UnrecognizedTag { pos: pos as u64, tag })
            },
        }
    }

    fn decode(data: &[u8], pos: usize, _args: ()) -> (r: Decoded<GradientTextureSubChunk>) {
        let (tag, start) = read_tag(data, pos)?;
        if tags_equal(&tag, &ascii('P', 'N', 'A', 'M')) {
            let (chunk, end) = SubChunk::<Name>::decode(data, start, ())?;
            Ok((GradientTextureSubChunk::ParameterName(chunk), end))
        } else if tags_equal(&tag, &ascii('I', 'N', 'A', 'M')) {
            let (chunk, end) = SubChunk::<Name>::decode(data, start, ())?;
            Ok((GradientTextureSubChunk::ItemName(chunk), end))
        } else if tags_equal(&tag, &ascii('G', 'R', 'S', 'T')) {
            let (chunk, end) = SubChunk::<GradientRange>::decode(data, start, ())?;
            Ok((GradientTextureSubChunk::GradientRangeStart(chunk), end))
        } else if tags_equal(&tag, &ascii('G', 'R', 'E', 'N')) {
            let (chunk, end) = SubChunk::<GradientRange>::decode(data, start, ())?;
            Ok((GradientTextureSubChunk::GradientRangeEnd(chunk), end))
        } else if tags_equal(&tag, &ascii('G', 'R', 'P', 'T')) {
            let (chunk, end) = SubChunk::<RepeatMode>::decode(data, start, ())?;
            Ok((GradientTextureSubChunk::RepeatMode(chunk), end))
        } else if tags_equal(&tag, &ascii('F', 'K', 'E', 'Y')) {
            let (chunk, end) = SubChunk::<KeyValues>::decode(data, start, ())?;
            Ok((GradientTextureSubChunk::KeyValues(chunk), end))
        } else if tags_equal(&tag, &ascii('I', 'K', 'E', 'Y')) {
            let (chunk, end) = SubChunk::<KeyParameters>::decode(data, start, ())?;
            Ok((GradientTextureSubChunk::KeyParameters(chunk), end))
        } else {
            Err(DecodeError::UnrecognizedTag { pos: pos as u64, tag })
        }
    }
}

impl Element<()> for GradientTextureSubChunk {
    proof fn lemma_advances(s: Seq<u8>, pos: int, _args: ()) {
        match spec_tag(s, pos) {
            Err(_) => {},
            Ok((tag, start)) => {
                if same_tag(tag, ascii('P', 'N', 'A', 'M')) {
                    lemma_sub_chunk_extent::<Name>(s, start);
                } else if same_tag(tag, ascii('I', 'N', 'A', 'M')) {
                    lemma_sub_chunk_extent::<Name>(s, start);
                } else if same_tag(tag, ascii('G', 'R', 'S', 'T')) {
                    lemma_sub_chunk_extent::<GradientRange>(s, start);
                } else if same_tag(tag, ascii('G', 'R', 'E', 'N')) {
                    lemma_sub_chunk_extent::<GradientRange>(s, start);
                } else if same_tag(tag, ascii('G', 'R', 'P', 'T')) {
                    lemma_sub_chunk_extent::<RepeatMode>(s, start);
                } else if same_tag(tag, ascii('F', 'K', 'E', 'Y')) {
                    lemma_sub_chunk_extent::<KeyValues>(s, start);
                } else if same_tag(tag, ascii('I', 'K', 'E', 'Y')) {
                    lemma_sub_chunk_extent::<KeyParameters>(s, start);
                }
            },
        }
    }
}

/// The interpolation of the keys of a gradient, one number for each key.
#[derive(Debug, PartialEq, Eq)]
pub struct KeyParameters {
    pub repeat_mode: Vec<u16>,
}

pub struct KeyParametersView {
    pub repeat_mode: Seq<u16>,
}

impl View for KeyParameters {
    type V = KeyParametersView;

    open spec fn view(&self) -> KeyParametersView {
        KeyParametersView { repeat_mode: self.repeat_mode@ }
    }
}

impl Decode<u32> for KeyParameters {
    /// One number for every two bytes of the declared length.
    open spec fn spec_decode(s: Seq<u8>, pos: int, length: u32) -> Parsed<KeyParametersView> {
        match spec_count::<u16, ()>(s, pos, (length / 2) as nat, ()) {
            Err(e) => Err(e),
            Ok((repeat_mode, end)) => Ok((KeyParametersView { repeat_mode }, end)),
        }
    }

    fn decode(data: &[u8], pos: usize, length: u32) -> (r: Decoded<KeyParameters>) {
        let (repeat_mode, end) = count::<u16, ()>(data, pos, (length / 2) as u64, ())?;
        assert(views(repeat_mode@) =~= repeat_mode@);
        Ok((KeyParameters { repeat_mode }, end))
    }
}

/// The keys of a gradient.
#[derive(Debug, PartialEq, Eq)]
pub struct KeyValues {
    pub key_values: Vec<KeyValue>,
}

pub struct KeyValuesView {
    pub key_values: Seq<KeyValue>,
}

impl View for KeyValues {
    type V = KeyValuesView;

    open spec fn view(&self) -> KeyValuesView {
        KeyValuesView { key_values: self.key_values@ }
    }
}

impl Decode<u32> for KeyValues {
    /// One key for every eighteen bytes of the declared length.
    open spec fn spec_decode(s: Seq<u8>, pos: int, length: u32) -> Parsed<KeyValuesView> {
        match spec_count::<KeyValue, ()>(s, pos, (length / 18) as nat, ()) {
            Err(e) => Err(e),
            Ok((key_values, end)) => Ok((KeyValuesView { key_values }, end)),
        }
    }

    fn decode(data: &[u8], pos: usize, length: u32) -> (r: Decoded<KeyValues>) {
        let (key_values, end) = count::<KeyValue, ()>(data, pos, (length / 18) as u64, ())?;
        assert(views(key_values@) =~= key_values@);
        Ok((KeyValues { key_values }, end))
    }
}

/// One key of a gradient: an input and the four components of the output at
/// that input.
#[derive(Debug, Clone, Copy, PartialEq, Eq)]
pub struct KeyValue {
    pub input: Float,
    pub output: [Float; 4],
}

impl View for KeyValue {
    type V = KeyValue;

    open spec fn view(&self) -> KeyValue {
        *self
    }
}

impl Decode<()> for KeyValue {
    open spec fn spec_decode(s: Seq<u8>, pos: int, _args: ()) -> Parsed<KeyValue> {
        match spec_float(s, pos) {
            Err(e) => Err(e),
            Ok((input, p1)) => match spec_vec4(s, p1) {
                Err(e) => Err(e),
                Ok((output, end)) => Ok((KeyValue { input, output }, end)),
            },
        }
    }

    fn decode(data: &[u8], pos: usize, _args: ()) -> (r: Decoded<KeyValue>) {
        let (input, p1) = read_float(data, pos)?;
        let (output, end) = read_vec4(data, p1)?;
        Ok((KeyValue { input, output }, end))
    }
}

impl Element<()> for KeyValue {
    proof fn lemma_advances(s: Seq<u8>, pos: int, _args: ()) {
    }
}

/// One end of the input range of a gradient.
#[derive(Debug, Clone, Copy, PartialEq, Eq)]
pub struct GradientRange {
    pub name: Float,
}

impl View for GradientRange {
    type V = GradientRange;

    open spec fn view(&self) -> GradientRange {
        *self
    }
}

impl Decode<u32> for GradientRange {
    open spec fn spec_decode(s: Seq<u8>, pos: int, _length: u32) -> Parsed<GradientRange> {
        match spec_float(s, pos) {
            Err(e) => Err(e),
            Ok((name, end)) => Ok((GradientRange { name }, end)),
        }
    }

    fn decode(data: &[u8], pos: usize, _length: u32) -> (r: Decoded<GradientRange>) {
        let (name, end) = read_float(data, pos)?;
        Ok((GradientRange { name }, end))
    }
}

/// How a gradient goes on outside its range.
#[derive(Debug, Clone, Copy, PartialEq, Eq)]
pub struct RepeatMode {
    pub repeat_mode: u16,
}

impl View for RepeatMode {
    type V = RepeatMode;

    open spec fn view(&self) -> RepeatMode {
        *self
    }
}

impl Decode<u32> for RepeatMode {
    open spec fn spec_decode(s: Seq<u8>, pos: int, _length: u32) -> Parsed<RepeatMode> {
        match spec_u16(s, pos) {
            Err(e) => Err(e),
            Ok((repeat_mode, end)) => Ok((RepeatMode { repeat_mode }, end)),
        }
    }

    fn decode(data: &[u8], pos: usize, _length: u32) -> (r: Decoded<RepeatMode>) {
        let (repeat_mode, end) = read_u16(data, pos)?;
        Ok((RepeatMode { repeat_mode }, end))
    }
}

} // verus!

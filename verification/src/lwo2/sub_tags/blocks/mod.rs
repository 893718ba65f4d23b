pub mod gradient_texture;
pub mod image_texture;
pub mod procedural_texture;
pub mod texture_mapping;

use crate::decode::{
    ascii, code_tag, Decode, Decoded, Element, Float, Parsed, read_bytes, read_float, read_magic,
    read_tag, read_u16, same_tag, skip, spec_bytes, spec_float, spec_magic, spec_skip, spec_tag,
    spec_u16, tags_equal, unrecognized_code, views,
};
use crate::error::DecodeError;
use crate::helpers::{
    padded_bytes, padded_text, spec_padded_bytes, spec_text, spec_until_size_limit,
    until_size_limit,
};
use crate::iff::{lemma_sub_chunk_extent, SubChunk, SubChunkView};
use crate::lwo2::{spec_vx, vx};
use crate::lwo2::sub_tags::EnableState;
use crate::lwo2::sub_tags::blocks::gradient_texture::{
    GradientTextureSubChunk, GradientTextureSubChunkView,
};
use crate::lwo2::sub_tags::blocks::image_texture::{
    SurfaceBlockImageTextureSubChunk, SurfaceBlockImageTextureSubChunkView,
};
use crate::lwo2::sub_tags::blocks::procedural_texture::{
    ProceduralTextureSubChunk, ProceduralTextureSubChunkView,
};
use vstd::prelude::*;

verus! {

/// A texture or shader laid on a surface. Each kind begins with a header,
/// a nested record of its own, and goes on with the sub-records of its kind
/// or, for a shader, with the one record that names the plug-in.
#[derive(Debug, PartialEq, Eq)]
#[allow(inconsistent_fields)]
pub enum SurfaceBlocks {
    /// An image mapped onto the surface.
    ImageMapTexture {
        header: SubChunk<SurfaceBlockHeader>,
        attributes: Vec<SurfaceBlockImageTextureSubChunk>,
    },
    /// A texture computed by a procedure.
    ProceduralTexture {
        header: SubChunk<SurfaceBlockHeader>,
        attributes: Vec<ProceduralTextureSubChunk>,
    },
    /// A texture that maps a parameter to a colour or value.
    GradientTexture {
        header: SubChunk<SurfaceBlockHeader>,
        attributes: Vec<GradientTextureSubChunk>,
    },
    /// A shader plug-in.
    ShaderPlugin { header: SubChunk<SurfaceBlockHeader>, algorithm: SubChunk<Algorithm> },
}

#[allow(inconsistent_fields)]
pub enum SurfaceBlocksView {
    ImageMapTexture {
        header: SubChunkView<SurfaceBlockHeaderView>,
        attributes: Seq<SurfaceBlockImageTextureSubChunkView>,
    },
    ProceduralTexture {
        header: SubChunkView<SurfaceBlockHeaderView>,
        attributes: Seq<ProceduralTextureSubChunkView>,
    },
    GradientTexture {
        header: SubChunkView<SurfaceBlockHeaderView>,
        attributes: Seq<GradientTextureSubChunkView>,
    },
    ShaderPlugin {
        header: SubChunkView<SurfaceBlockHeaderView>,
        algorithm: SubChunkView<AlgorithmView>,
    },
}

impl View for SurfaceBlocks {
    type V = SurfaceBlocksView;

    open spec fn view(&self) -> SurfaceBlocksView {
        match self {
            SurfaceBlocks::ImageMapTexture { header, attributes } =>
                SurfaceBlocksView::ImageMapTexture {
                    header: header@,
                    attributes: views(attributes@),
                },
            SurfaceBlocks::ProceduralTexture { header, attributes } =>
                SurfaceBlocksView::ProceduralTexture {
                    header: header@,
                    attributes: views(attributes@),
                },
            SurfaceBlocks::GradientTexture { header, attributes } =>
                SurfaceBlocksView::GradientTexture {
                    header: header@,
                    attributes: views(attributes@),
                },
            SurfaceBlocks::ShaderPlugin { header, algorithm } =>
                SurfaceBlocksView::ShaderPlugin { header: header@, algorithm: algorithm@ },
        }
    }
}

/// The header of a block and the sub-records that follow it. Of the
/// block's declared length the block's own tag, the header's length field
/// and the header's payload are taken off, six bytes and the header's
/// declared length; what is left is the budget of the sub-records.
pub open spec fn spec_block_body<T: Element<()>>(
    s: Seq<u8>,
    pos: int,
    start: int,
    length: u32,
) -> Parsed<(SubChunkView<SurfaceBlockHeaderView>, Seq<T::V>)> {
    match SubChunk::<SurfaceBlockHeader>::spec_decode(s, start, ()) {
        Err(e) => Err(e),
        Ok((header, p)) => if length < header.length + 6 {
            Err(DecodeError::StructuralAssertion { pos: pos as u64 })
        } else {
            match spec_until_size_limit::<T, ()>(s, p, length - (header.length + 6), ()) {
                Err(e) => Err(e),
                Ok((attributes, end)) => Ok(((header, attributes), end)),
            }
        },
    }
}

/// Decodes the header of a block and the sub-records that follow it.
/// `pos` is the offset of the block, `start` the position after its tag.
pub fn block_body<T: Element<()>>(data: &[u8], pos: usize, start: usize, length: u32) -> (r:
    Decoded<(SubChunk<SurfaceBlockHeader>, Vec<T>)>)
    ensures
        match r {
            Ok(((header, attributes), end)) => spec_block_body::<T>(
                data@,
                pos as int,
                start as int,
                length,
            ) == Ok::<((SubChunkView<SurfaceBlockHeaderView>, Seq<T::V>), int), DecodeError>(
                ((header@, views(attributes@)), end as int),
            ),
            Err(e) => spec_block_body::<T>(data@, pos as int, start as int, length) == Err::<
                ((SubChunkView<SurfaceBlockHeaderView>, Seq<T::V>), int),
                DecodeError,
            >(e),
        },
{
    let (header, p) = SubChunk::<SurfaceBlockHeader>::decode(data, start, ())?;
    if (length as u64) < header.length as u64 + 6 {
        return Err(DecodeError::StructuralAssertion { pos: pos as u64 });
    }
    let (attributes, end) = until_size_limit::<T, ()>(
        data,
        p,
        length as u64 - (header.length as u64 + 6),
        (),
    )?;
    Ok(((header, attributes), end))
}

impl Decode<u32> for SurfaceBlocks {
    open spec fn spec_decode(s: Seq<u8>, pos: int, length: u32) -> Parsed<SurfaceBlocksView> {
        match spec_tag(s, pos) {
            Err(e) => Err(e),
            Ok((tag, start)) => if same_tag(tag, ascii('I', 'M', 'A', 'P')) {
                match spec_block_body::<SurfaceBlockImageTextureSubChunk>(s, pos, start, length) {
                    Err(e) => Err(e),
                    Ok(((header, attributes), end)) =>
                        Ok((SurfaceBlocksView::ImageMapTexture { header, attributes }, end)),
                }
            } else if same_tag(tag, ascii('P', 'R', 'O', 'C')) {
                match spec_block_body::<ProceduralTextureSubChunk>(s, pos, start, length) {
                    Err(e) => Err(e),
                    Ok(((header, attributes), end)) =>
                        Ok((SurfaceBlocksView::ProceduralTexture { header, attributes }, end)),
                }
            } else if same_tag(tag, ascii('G', 'R', 'A', 'D')) {
                match spec_block_body::<GradientTextureSubChunk>(s, pos, start, length) {
                    Err(e) => Err(e),
                    Ok(((header, attributes), end)) =>
                        Ok((SurfaceBlocksView::GradientTexture { header, attributes }, end)),
                }
            } else if same_tag(tag, ascii('S', 'H', 'D', 'R')) {
                match SubChunk::<SurfaceBlockHeader>::spec_decode(s, start, ()) {
                    Err(e) => Err(e),
                    Ok((header, p1)) => match spec_magic(s, p1, ascii('F', 'U', 'N', 'C')) {
                        Err(e) => Err(e),
                        Ok(p2) => match SubChunk::<Algorithm>::spec_decode(s, p2, ()) {
                            Err(e) => Err(e),
                            Ok((algorithm, end)) =>
                                Ok((SurfaceBlocksView::ShaderPlugin { header, algorithm }, end)),
                        },
                    },
                }
            } else {
                Err(DecodeError::UnrecognizedTag { pos: pos as u64, tag })
            },
        }
    }

    fn decode(data: &[u8], pos: usize, length: u32) -> (r: Decoded<SurfaceBlocks>) {
        let (tag, start) = read_tag(data, pos)?;
        if tags_equal(&tag, &ascii('I', 'M', 'A', 'P')) {
            let ((header, attributes), end) = block_body::<SurfaceBlockImageTextureSubChunk>(
                data,
                pos,
                start,
                length,
            )?;
            Ok((SurfaceBlocks::ImageMapTexture { header, attributes }, end))
        } else if tags_equal(&tag, &ascii('P', 'R', 'O', 'C')) {
            let ((header, attributes), end) = block_body::<ProceduralTextureSubChunk>(
                data,
                pos,
                start,
                length,
            )?;
            Ok((SurfaceBlocks::ProceduralTexture { header, attributes }, end))
        } else if tags_equal(&tag, &ascii('G', 'R', 'A', 'D')) {
            let ((header, attributes), end) = block_body::<GradientTextureSubChunk>(
                data,
                pos,
                start,
                length,
            )?;
            Ok((SurfaceBlocks::GradientTexture { header, attributes }, end))
        } else if tags_equal(&tag, &ascii('S', 'H', 'D', 'R')) {
            let (header, p1) = SubChunk::<SurfaceBlockHeader>::decode(data, start, ())?;
            let p2 = read_magic(data, p1, ascii('F', 'U', 'N', 'C'))?;
            let (algorithm, end) = SubChunk::<Algorithm>::decode(data, p2, ())?;
            Ok((SurfaceBlocks::ShaderPlugin { header, algorithm }, end))
        } else {
            Err(DecodeError::UnrecognizedTag { pos: pos as u64, tag })
        }
    }
}

/// A procedure or shader and its parameters: the name of the plug-in as a
/// padded string and, after it, the bytes that the plug-in stores for
/// itself.
#[derive(Debug, PartialEq, Eq)]
pub struct Algorithm {
    pub algorithm_name: String,
    pub data: Vec<u8>,
}

pub struct AlgorithmView {
    pub algorithm_name: Seq<char>,
    pub data: Seq<u8>,
}

impl View for Algorithm {
    type V = AlgorithmView;

    open spec fn view(&self) -> AlgorithmView {
        AlgorithmView { algorithm_name: self.algorithm_name@, data: self.data@ }
    }
}

impl Decode<u32> for Algorithm {
    /// The bytes of the name and one more have to fit in the declared
    /// length; as many bytes as are left of it follow the name.
    open spec fn spec_decode(s: Seq<u8>, pos: int, length: u32) -> Parsed<AlgorithmView> {
        match spec_padded_bytes(s, pos) {
            Err(e) => Err(e),
            Ok((bytes, p1)) => match spec_text(bytes, pos) {
                Err(e) => Err(e),
                Ok(algorithm_name) => if length < bytes.len() + 1 {
                    Err(DecodeError::StructuralAssertion { pos: pos as u64 })
                } else {
                    match spec_bytes(s, p1, length - (bytes.len() + 1)) {
                        Err(e) => Err(e),
                        Ok((data, end)) => Ok((AlgorithmView { algorithm_name, data }, end)),
                    }
                },
            },
        }
    }

    fn decode(data: &[u8], pos: usize, length: u32) -> (r: Decoded<Algorithm>) {
        let (bytes, p1) = padded_bytes(data, pos)?;
        let name_len: u64 = bytes.len() as u64;
        let algorithm_name = padded_text(bytes, pos)?;
        if (length as u64) < name_len + 1 {
            return Err(DecodeError::StructuralAssertion { pos: pos as u64 });
        }
        let (payload, end) = read_bytes(data, p1, length as u64 - (name_len + 1))?;
        Ok((Algorithm { algorithm_name, data: payload }, end))
    }
}

/// The header of a block: what the block applies to and how it is
/// combined with the blocks before it.
#[derive(Debug, PartialEq, Eq)]
pub struct SurfaceBlockHeader {
    pub block_attributes: Vec<SurfaceBlockHeaderSubChunk>,
}

pub struct SurfaceBlockHeaderView {
    pub block_attributes: Seq<SurfaceBlockHeaderSubChunkView>,
}

impl View for SurfaceBlockHeader {
    type V = SurfaceBlockHeaderView;

    open spec fn view(&self) -> SurfaceBlockHeaderView {
        SurfaceBlockHeaderView { block_attributes: views(self.block_attributes@) }
    }
}

impl Decode<u32> for SurfaceBlockHeader {
    /// The first two bytes, which order the blocks of a surface, are
    /// passed over. The declared length has to be four bytes at least, and
    /// sub-records are decoded until all of it but four bytes is used up.
    open spec fn spec_decode(s: Seq<u8>, pos: int, length: u32) -> Parsed<SurfaceBlockHeaderView> {
        match spec_skip(s, pos, 2) {
            Err(e) => Err(e),
            Ok(start) => if length < 4 {
                Err(DecodeError::StructuralAssertion { pos: pos as u64 })
            } else {
                match spec_until_size_limit::<SurfaceBlockHeaderSubChunk, ()>(
                    s,
                    start,
                    length - 4,
                    (),
                ) {
                    Err(e) => Err(e),
                    Ok((block_attributes, end)) =>
                        Ok((SurfaceBlockHeaderView { block_attributes }, end)),
                }
            },
        }
    }

    fn decode(data: &[u8], pos: usize, length: u32) -> (r: Decoded<SurfaceBlockHeader>) {
        let start = skip(data, pos, 2)?;
        if length < 4 {
            return Err(DecodeError::StructuralAssertion { pos: pos as u64 });
        }
        let (block_attributes, end) = until_size_limit::<SurfaceBlockHeaderSubChunk, ()>(
            data,
            start,
            (length - 4) as u64,
            (),
        )?;
        Ok((SurfaceBlockHeader { block_attributes }, end))
    }
}

/// One sub-record of a block's header.
#[derive(Debug, PartialEq, Eq)]
pub enum SurfaceBlockHeaderSubChunk {
    /// The surface attribute that the block changes.
    Channel(SubChunk<Channel>),
    /// Whether the block is in use.
    EnabledState(SubChunk<EnableState>),
    /// How the block is combined with what lies under it.
    Opacity(SubChunk<Opacity>),
    /// The axis of a displacement.
    DisplacementAxis(SubChunk<DisplacementAxis>),
    /// Whether the block is inverted.
    Negative(SubChunk<EnableState>),
}

pub enum SurfaceBlockHeaderSubChunkView {
    Channel(SubChunkView<Channel>),
    EnabledState(SubChunkView<EnableState>),
    Opacity(SubChunkView<Opacity>),
    DisplacementAxis(SubChunkView<DisplacementAxis>),
    Negative(SubChunkView<EnableState>),
}

impl View for SurfaceBlockHeaderSubChunk {
    type V = SurfaceBlockHeaderSubChunkView;

    open spec fn view(&self) -> SurfaceBlockHeaderSubChunkView {
        match self {
            SurfaceBlockHeaderSubChunk::Channel(chunk) =>
                SurfaceBlockHeaderSubChunkView::Channel(chunk@),
            SurfaceBlockHeaderSubChunk::EnabledState(chunk) =>
                SurfaceBlockHeaderSubChunkView::EnabledState(chunk@),
            SurfaceBlockHeaderSubChunk::Opacity(chunk) =>
                SurfaceBlockHeaderSubChunkView::Opacity(chunk@),
            SurfaceBlockHeaderSubChunk::DisplacementAxis(chunk) =>
                SurfaceBlockHeaderSubChunkView::DisplacementAxis(chunk@),
            SurfaceBlockHeaderSubChunk::Negative(chunk) =>
                SurfaceBlockHeaderSubChunkView::Negative(chunk@),
        }
    }
}

impl Decode<()> for SurfaceBlockHeaderSubChunk {
    open spec fn spec_decode(s: Seq<u8>, pos: int, _args: ()) -> Parsed<
        SurfaceBlockHeaderSubChunkView,
    > {
        match spec_tag(s, pos) {
            Err(e) => Err(e),
            Ok((tag, start)) => if same_tag(tag, ascii('C', 'H', 'A', 'N')) {
                match SubChunk::<Channel>::spec_decode(s, start, ()) {
                    Err(e) => Err(e),
                    Ok((chunk, end)) => Ok((SurfaceBlockHeaderSubChunkView::Channel(chunk), end)),
                }
            } else if same_tag(tag, ascii('E', 'N', 'A', 'B')) {
                match SubChunk::<EnableState>::spec_decode(s, start, ()) {
                    Err(e) => Err(e),
                    Ok((chunk, end)) =>
                        Ok((SurfaceBlockHeaderSubChunkView::EnabledState(chunk), end)),
                }
            } else if same_tag(tag, ascii('O', 'P', 'A', 'C')) {
                match SubChunk::<Opacity>::spec_decode(s, start, ()) {
                    Err(e) => Err(e),
                    Ok((chunk, end)) => Ok((SurfaceBlockHeaderSubChunkView::Opacity(chunk), end)),
                }
            } else if same_tag(tag, ascii('A', 'X', 'I', 'S')) {
                match SubChunk::<DisplacementAxis>::spec_decode(s, start, ()) {
                    Err(e) => Err(e),
                    Ok((chunk, end)) =>
                        Ok((SurfaceBlockHeaderSubChunkView::DisplacementAxis(chunk), end)),
                }
            } else if same_tag(tag, ascii('N', 'E', 'G', 'A')) {
                match SubChunk::<EnableState>::spec_decode(s, start, ()) {
                    Err(e) => Err(e),
                    Ok((chunk, end)) => Ok((SurfaceBlockHeaderSubChunkView::Negative(chunk), end)),
                }
            } else {
                Err(DecodeError::UnrecognizedTag { pos: pos as u64, tag })
            },
        }
    }

    fn decode(data: &[u8], pos: usize, _args: ()) -> (r: Decoded<SurfaceBlockHeaderSubChunk>) {
        let (tag, start) = read_tag(data, pos)?;
        if tags_equal(&tag, &ascii('C', 'H', 'A', 'N')) {
            let (chunk, end) = SubChunk::<Channel>::decode(data, start, ())?;
            Ok((SurfaceBlockHeaderSubChunk::Channel(chunk), end))
        } else if tags_equal(&tag, &ascii('E', 'N', 'A', 'B')) {
            let (chunk, end) = SubChunk::<EnableState>::decode(data, start, ())?;
            Ok((SurfaceBlockHeaderSubChunk::EnabledState(chunk), end))
        } else if tags_equal(&tag, &ascii('O', 'P', 'A', 'C')) {
            let (chunk, end) = SubChunk::<Opacity>::decode(data, start, ())?;
            Ok((SurfaceBlockHeaderSubChunk::Opacity(chunk), end))
        } else if tags_equal(&tag, &ascii('A', 'X', 'I', 'S')) {
            let (chunk, end) = SubChunk::<DisplacementAxis>::decode(data, start, ())?;
            Ok((SurfaceBlockHeaderSubChunk::DisplacementAxis(chunk), end))
        } else if tags_equal(&tag, &ascii('N', 'E', 'G', 'A')) {
            let (chunk, end) = SubChunk::<EnableState>::decode(data, start, ())?;
            Ok((SurfaceBlockHeaderSubChunk::Negative(chunk), end))
        } else {
            Err(DecodeError::UnrecognizedTag { pos: pos as u64, tag })
        }
    }
}

impl Element<()> for SurfaceBlockHeaderSubChunk {
    proof fn lemma_advances(s: Seq<u8>, pos: int, _args: ()) {
        match spec_tag(s, pos) {
            Err(_) => {},
            Ok((tag, start)) => {
                if same_tag(tag, ascii('C', 'H', 'A', 'N')) {
                    lemma_sub_chunk_extent::<Channel>(s, start);
                } else if same_tag(tag, ascii('E', 'N', 'A', 'B')) {
                    lemma_sub_chunk_extent::<EnableState>(s, start);
                } else if same_tag(tag, ascii('O', 'P', 'A', 'C')) {
                    lemma_sub_chunk_extent::<Opacity>(s, start);
                } else if same_tag(tag, ascii('A', 'X', 'I', 'S')) {
                    lemma_sub_chunk_extent::<DisplacementAxis>(s, start);
                } else if same_tag(tag, ascii('N', 'E', 'G', 'A')) {
                    lemma_sub_chunk_extent::<EnableState>(s, start);
                }
            },
        }
    }
}

/// The axis of a displacement: 0, 1 or 2 for X, Y or Z.
#[derive(Debug, Clone, Copy, PartialEq, Eq)]
pub struct DisplacementAxis {
    pub displacement_axis: u16,
}

impl View for DisplacementAxis {
    type V = DisplacementAxis;

    open spec fn view(&self) -> DisplacementAxis {
        *self
    }
}

impl Decode<u32> for DisplacementAxis {
    open spec fn spec_decode(s: Seq<u8>, pos: int, _length: u32) -> Parsed<DisplacementAxis> {
        match spec_u16(s, pos) {
            Err(e) => Err(e),
            Ok((displacement_axis, end)) => Ok((DisplacementAxis { displacement_axis }, end)),
        }
    }

    fn decode(data: &[u8], pos: usize, _length: u32) -> (r: Decoded<DisplacementAxis>) {
        let (displacement_axis, end) = read_u16(data, pos)?;
        Ok((DisplacementAxis { displacement_axis }, end))
    }
}

/// How a block is combined with what lies under it.
#[derive(Debug, Clone, Copy, PartialEq, Eq)]
pub struct Opacity {
    pub kind: OpacityType,
    pub opacity: Float,
    /// The index of the envelope, zero where there is none.
    pub envelope: u32,
}

impl View for Opacity {
    type V = Opacity;

    open spec fn view(&self) -> Opacity {
        *self
    }
}

impl Decode<u32> for Opacity {
    open spec fn spec_decode(s: Seq<u8>, pos: int, _length: u32) -> Parsed<Opacity> {
        match OpacityType::spec_decode(s, pos, ()) {
            Err(e) => Err(e),
            Ok((kind, p1)) => match spec_float(s, p1) {
                Err(e) => Err(e),
                Ok((opacity, p2)) => match spec_vx(s, p2) {
                    Err(e) => Err(e),
                    Ok((envelope, end)) => Ok((Opacity { kind, opacity, envelope }, end)),
                },
            },
        }
    }

    fn decode(data: &[u8], pos: usize, _length: u32) -> (r: Decoded<Opacity>) {
        let (kind, p1) = OpacityType::decode(data, pos, ())?;
        let (opacity, p2) = read_float(data, p1)?;
        let (envelope, end) = vx(data, p2)?;
        Ok((Opacity { kind, opacity, envelope }, end))
    }
}

/// The way in which a block is combined with what lies under it.
#[derive(Debug, Clone, Copy, PartialEq, Eq)]
pub enum OpacityType {
    Normal,
    Subtractive,
    Difference,
    Multiply,
    Divide,
    Alpha,
    TextureDisplacement,
    Additive,
}

impl View for OpacityType {
    type V = OpacityType;

    open spec fn view(&self) -> OpacityType {
        *self
    }
}

impl OpacityType {
    /// The variant that the number `code` stands for, if there is one.
    pub open spec fn spec_from_code(code: u16) -> Option<OpacityType> {
        if code == 0 {
            Some(OpacityType::Normal)
        } else if code == 1 {
            Some(OpacityType::Subtractive)
        } else if code == 2 {
            Some(OpacityType::Difference)
        } else if code == 3 {
            Some(OpacityType::Multiply)
        } else if code == 4 {
            Some(OpacityType::Divide)
        } else if code == 5 {
            Some(OpacityType::Alpha)
        } else if code == 6 {
            Some(OpacityType::TextureDisplacement)
        } else if code == 7 {
            Some(OpacityType::Additive)
        } else {
            None
        }
    }

    /// Looks up the variant that the number `code` stands for.
    pub fn from_code(code: u16) -> (r: Option<OpacityType>)
        ensures
            r == Self::spec_from_code(code),
    {
        if code == 0 {
            Some(OpacityType::Normal)
        } else if code == 1 {
            Some(OpacityType::Subtractive)
        } else if code == 2 {
            Some(OpacityType::Difference)
        } else if code == 3 {
            Some(OpacityType::Multiply)
        } else if code == 4 {
            Some(OpacityType::Divide)
        } else if code == 5 {
            Some(OpacityType::Alpha)
        } else if code == 6 {
            Some(OpacityType::TextureDisplacement)
        } else if code == 7 {
            Some(OpacityType::Additive)
        } else {
            None
        }
    }
}

impl Decode<()> for OpacityType {
    open spec fn spec_decode(s: Seq<u8>, pos: int, _args: ()) -> Parsed<OpacityType> {
        match spec_u16(s, pos) {
            Err(e) => Err(e),
            Ok((code, end)) => match OpacityType::spec_from_code(code) {
                Some(v) => Ok((v, end)),
                None => Err(unrecognized_code(pos, code as u32)),
            },
        }
    }

    fn decode(data: &[u8], pos: usize, _args: ()) -> (r: Decoded<OpacityType>) {
        let (code, end) = read_u16(data, pos)?;
        match OpacityType::from_code(code) {
            Some(v) => Ok((v, end)),
            None =>
                Err(DecodeError::UnrecognizedTag { pos: pos as u64, tag: code_tag(code as u32) }),
        }
    }
}

impl Element<()> for OpacityType {
    proof fn lemma_advances(s: Seq<u8>, pos: int, _args: ()) {
    }
}

/// The surface attribute that a block changes.
#[derive(Debug, Clone, Copy, PartialEq, Eq)]
pub struct Channel {
    pub texture_channel: TextureChannel,
}

impl View for Channel {
    type V = Channel;

    open spec fn view(&self) -> Channel {
        *self
    }
}

impl Decode<u32> for Channel {
    open spec fn spec_decode(s: Seq<u8>, pos: int, _length: u32) -> Parsed<Channel> {
        match TextureChannel::spec_decode(s, pos, ()) {
            Err(e) => Err(e),
            Ok((texture_channel, end)) => Ok((Channel { texture_channel }, end)),
        }
    }

    fn decode(data: &[u8], pos: usize, _length: u32) -> (r: Decoded<Channel>) {
        let (texture_channel, end) = TextureChannel::decode(data, pos, ())?;
        Ok((Channel { texture_channel }, end))
    }
}

/// A surface attribute that a block can change, named by the tag of the
/// attribute's own sub-record.
#[derive(Debug, Clone, Copy, PartialEq, Eq)]
pub enum TextureChannel {
    Color,
    Diffuse,
    Luminosity,
    Specular,
    Glossy,
    Reflectivity,
    Transparency,
    RefractiveIndex,
    Translucency,
    Bump,
}

impl View for TextureChannel {
    type V = TextureChannel;

    open spec fn view(&self) -> TextureChannel {
        *self
    }
}

impl TextureChannel {
    /// The variant that the four bytes `tag` name, if there is one.
    pub open spec fn spec_from_tag(tag: [u8; 4]) -> Option<TextureChannel> {
        if same_tag(tag, ascii('C', 'O', 'L', 'R')) {
            Some(TextureChannel::Color)
        } else if same_tag(tag, ascii('D', 'I', 'F', 'F')) {
            Some(TextureChannel::Diffuse)
        } else if same_tag(tag, ascii('L', 'U', 'M', 'I')) {
            Some(TextureChannel::Luminosity)
        } else if same_tag(tag, ascii('S', 'P', 'E', 'C')) {
            Some(TextureChannel::Specular)
        } else if same_tag(tag, ascii('G', 'L', 'O', 'S')) {
            Some(TextureChannel::Glossy)
        } else if same_tag(tag, ascii('R', 'E', 'F', 'L')) {
            Some(TextureChannel::Reflectivity)
        } else if same_tag(tag, ascii('T', 'R', 'A', 'N')) {
            Some(TextureChannel::Transparency)
        } else if same_tag(tag, ascii('R', 'I', 'N', 'D')) {
            Some(TextureChannel::RefractiveIndex)
        } else if same_tag(tag, ascii('T', 'R', 'N', 'L')) {
            Some(TextureChannel::Translucency)
        } else if same_tag(tag, ascii('B', 'U', 'M', 'P')) {
            Some(TextureChannel::Bump)
        } else {
            None
        }
    }

    /// Looks up the variant that the four bytes `tag` name.
    pub fn from_tag(tag: &[u8; 4]) -> (r: Option<TextureChannel>)
        ensures
            r == Self::spec_from_tag(*tag),
    {
        if tags_equal(tag, &ascii('C', 'O', 'L', 'R')) {
            Some(TextureChannel::Color)
        } else if tags_equal(tag, &ascii('D', 'I', 'F', 'F')) {
            Some(TextureChannel::Diffuse)
        } else if tags_equal(tag, &ascii('L', 'U', 'M', 'I')) {
            Some(TextureChannel::Luminosity)
        } else if tags_equal(tag, &ascii('S', 'P', 'E', 'C')) {
            Some(TextureChannel::Specular)
        } else if tags_equal(tag, &ascii('G', 'L', 'O', 'S')) {
            Some(TextureChannel::Glossy)
        } else if tags_equal(tag, &ascii('R', 'E', 'F', 'L')) {
            Some(TextureChannel::Reflectivity)
        } else if tags_equal(tag, &ascii('T', 'R', 'A', 'N')) {
            Some(TextureChannel::Transparency)
        } else if tags_equal(tag, &ascii('R', 'I', 'N', 'D')) {
            Some(TextureChannel::RefractiveIndex)
        } else if tags_equal(tag, &ascii('T', 'R', 'N', 'L')) {
            Some(TextureChannel::Translucency)
        } else if tags_equal(tag, &ascii('B', 'U', 'M', 'P')) {
            Some(TextureChannel::Bump)
        } else {
            None
        }
    }
}

impl Decode<()> for TextureChannel {
    open spec fn spec_decode(s: Seq<u8>, pos: int, _args: ()) -> Parsed<TextureChannel> {
        match spec_tag(s, pos) {
            Err(e) => Err(e),
            Ok((tag, end)) => match TextureChannel::spec_from_tag(tag) {
                Some(v) => Ok((v, end)),
                None => Err(DecodeError::UnrecognizedTag { pos: pos as u64, tag }),
            },
        }
    }

    fn decode(data: &[u8], pos: usize, _args: ()) -> (r: Decoded<TextureChannel>) {
        let (tag, end) = read_tag(data, pos)?;
        match TextureChannel::from_tag(&tag) {
            Some(v) => Ok((v, end)),
            None => Err(DecodeError::UnrecognizedTag { pos: pos as u64, tag }),
        }
    }
}

impl Element<()> for TextureChannel {
    proof fn lemma_advances(s: Seq<u8>, pos: int, _args: ()) {
    }
}

} // verus!

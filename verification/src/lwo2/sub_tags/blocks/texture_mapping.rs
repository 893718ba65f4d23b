use crate::decode::{
    ascii, code_tag, Decode, Decoded, Element, Float, Parsed, read_tag, read_u16, read_vec3,
    same_tag, spec_tag, spec_u16, spec_vec3, tags_equal, unrecognized_code, views,
};
use crate::error::DecodeError;
use crate::helpers::{
    lwo_null_string, spec_lwo_null_string, spec_until_size_limit, until_size_limit,
};
use crate::iff::{lemma_sub_chunk_extent, SubChunk, SubChunkView};
use crate::lwo2::{spec_vx, vx};
use crate::lwo2::sub_tags::VectorEnvelope;
use vstd::prelude::*;

verus! {

/// How a texture is placed in space: the sub-records of a mapping, in the
/// order in which they are stored.
#[derive(Debug, PartialEq, Eq)]
pub struct TextureMapping {
    pub attributes: Vec<TextureMappingSubChunk>,
}

pub struct TextureMappingView {
    pub attributes: Seq<TextureMappingSubChunkView>,
}

impl View for TextureMapping {
    type V = TextureMappingView;

    open spec fn view(&self) -> TextureMappingView {
        TextureMappingView { attributes: views(self.attributes@) }
    }
}

impl Decode<u32> for TextureMapping {
    /// Sub-records are decoded until the declared length is used up.
    open spec fn spec_decode(s: Seq<u8>, pos: int, length: u32) -> Parsed<TextureMappingView> {
        match spec_until_size_limit::<TextureMappingSubChunk, ()>(s, pos, length as int, ()) {
            Err(e) => Err(e),
            Ok((attributes, end)) => Ok((TextureMappingView { attributes }, end)),
        }
    }

    fn decode(data: &[u8], pos: usize, length: u32) -> (r: Decoded<TextureMapping>) {
        let (attributes, end) = until_size_limit::<TextureMappingSubChunk, ()>(
            data,
            pos,
            length as u64,
            (),
        )?;
        Ok((TextureMapping { attributes }, end))
    }
}

/// One sub-record of a texture mapping.
#[derive(Debug, PartialEq, Eq)]
pub enum TextureMappingSubChunk {
    /// The centre of the texture.
    Center(SubChunk<VectorEnvelope>),
    /// The scale of the texture along each axis.
    Size(SubChunk<VectorEnvelope>),
    /// The heading, pitch and bank of the texture.
    Rotation(SubChunk<VectorEnvelope>),
    /// The object whose motion the texture follows.
    ReferenceObject(SubChunk<ReferenceObject>),
    /// How the texture fades with distance from its centre.
    Falloff(SubChunk<Falloff>),
    /// Whether the texture lives in object or in world coordinates.
    CoordinateSystem(SubChunk<CoordinateSystem>),
}

pub enum TextureMappingSubChunkView {
    Center(SubChunkView<VectorEnvelope>),
    Size(SubChunkView<VectorEnvelope>),
    Rotation(SubChunkView<VectorEnvelope>),
    ReferenceObject(SubChunkView<ReferenceObjectView>),
    Falloff(SubChunkView<Falloff>),
    CoordinateSystem(SubChunkView<CoordinateSystem>),
}

impl View for TextureMappingSubChunk {
    type V = TextureMappingSubChunkView;

    open spec fn view(&self) -> TextureMappingSubChunkView {
        match self {
            TextureMappingSubChunk::Center(chunk) => TextureMappingSubChunkView::Center(chunk@),
            TextureMappingSubChunk::Size(chunk) => TextureMappingSubChunkView::Size(chunk@),
            TextureMappingSubChunk::Rotation(chunk) => TextureMappingSubChunkView::Rotation(chunk@),
            TextureMappingSubChunk::ReferenceObject(chunk) =>
                TextureMappingSubChunkView::ReferenceObject(chunk@),
            TextureMappingSubChunk::Falloff(chunk) => TextureMappingSubChunkView::Falloff(chunk@),
            TextureMappingSubChunk::CoordinateSystem(chunk) =>
                TextureMappingSubChunkView::CoordinateSystem(chunk@),
        }
    }
}

impl Decode<()> for TextureMappingSubChunk {
    open spec fn spec_decode(s: Seq<u8>, pos: int, _args: ()) -> Parsed<
        TextureMappingSubChunkView,
    > {
        match spec_tag(s, pos) {
            Err(e) => Err(e),
            Ok((tag, start)) => if same_tag(tag, ascii('C', 'N', 'T', 'R')) {
                match SubChunk::<VectorEnvelope>::spec_decode(s, start, ()) {
                    Err(e) => Err(e),
                    Ok((chunk, end)) => Ok((TextureMappingSubChunkView::Center(chunk), end)),
                }
            } else if same_tag(tag, ascii('S', 'I', 'Z', 'E')) {
                match SubChunk::<VectorEnvelope>::spec_decode(s, start, ()) {
                    Err(e) => Err(e),
                    Ok((chunk, end)) => Ok((TextureMappingSubChunkView::Size(chunk), end)),
                }
            } else if same_tag(tag, ascii('R', 'O', 'T', 'A')) {
                match SubChunk::<VectorEnvelope>::spec_decode(s, start, ()) {
                    Err(e) => Err(e),
                    Ok((chunk, end)) => Ok((TextureMappingSubChunkView::Rotation(chunk), end)),
                }
            } else if same_tag(tag, ascii('O', 'R', 'E', 'F')) {
                match SubChunk::<ReferenceObject>::spec_decode(s, start, ()) {
                    Err(e) => Err(e),
                    Ok((chunk, end)) =>
                        Ok((TextureMappingSubChunkView::ReferenceObject(chunk), end)),
                }
            } else if same_tag(tag, ascii('F', 'A', 'L', 'L')) {
                match SubChunk::<Falloff>::spec_decode(s, start, ()) {
                    Err(e) => Err(e),
                    Ok((chunk, end)) => Ok((TextureMappingSubChunkView::Falloff(chunk), end)),
                }
            } else if same_tag(tag, ascii('C', 'S', 'Y', 'S')) {
                match SubChunk::<CoordinateSystem>::spec_decode(s, start, ()) {
                    Err(e) => Err(e),
                    Ok((chunk, end)) =>
                        Ok((TextureMappingSubChunkView::CoordinateSystem(chunk), end)),
                }
            } else {
                Err(DecodeError::UnrecognizedTag { pos: pos as u64, tag })
            },
        }
    }

    fn decode(data: &[u8], pos: usize, _args: ()) -> (r: Decoded<TextureMappingSubChunk>) {
        let (tag, start) = read_tag(data, pos)?;
        if tags_equal(&tag, &ascii('C', 'N', 'T', 'R')) {
            let (chunk, end) = SubChunk::<VectorEnvelope>::decode(data, start, ())?;
            Ok((TextureMappingSubChunk::Center(chunk), end))
        } else if tags_equal(&tag, &ascii('S', 'I', 'Z', 'E')) {
            let (chunk, end) = SubChunk::<VectorEnvelope>::decode(data, start, ())?;
            Ok((TextureMappingSubChunk::Size(chunk), end))
        } else if tags_equal(&tag, &ascii('R', 'O', 'T', 'A')) {
            let (chunk, end) = SubChunk::<VectorEnvelope>::decode(data, start, ())?;
            Ok((TextureMappingSubChunk::Rotation(chunk), end))
        } else if tags_equal(&tag, &ascii('O', 'R', 'E', 'F')) {
            let (chunk, end) = SubChunk::<ReferenceObject>::decode(data, start, ())?;
            Ok((TextureMappingSubChunk::ReferenceObject(chunk), end))
        } else if tags_equal(&tag, &ascii('F', 'A', 'L', 'L')) {
            let (chunk, end) = SubChunk::<Falloff>::decode(data, start, ())?;
            Ok((TextureMappingSubChunk::Falloff(chunk), end))
        } else if tags_equal(&tag, &ascii('C', 'S', 'Y', 'S')) {
            let (chunk, end) = SubChunk::<CoordinateSystem>::decode(data, start, ())?;
            Ok((TextureMappingSubChunk::CoordinateSystem(chunk), end))
        } else {
            Err(DecodeError::UnrecognizedTag { pos: pos as u64, tag })
        }
    }
}

impl Element<()> for TextureMappingSubChunk {
    proof fn lemma_advances(s: Seq<u8>, pos: int, _args: ()) {
        match spec_tag(s, pos) {
            Err(_) => {},
            Ok((tag, start)) => {
                if same_tag(tag, ascii('C', 'N', 'T', 'R')) {
                    lemma_sub_chunk_extent::<VectorEnvelope>(s, start);
                } else if same_tag(tag, ascii('S', 'I', 'Z', 'E')) {
                    lemma_sub_chunk_extent::<VectorEnvelope>(s, start);
                } else if same_tag(tag, ascii('R', 'O', 'T', 'A')) {
                    lemma_sub_chunk_extent::<VectorEnvelope>(s, start);
                } else if same_tag(tag, ascii('O', 'R', 'E', 'F')) {
                    lemma_sub_chunk_extent::<ReferenceObject>(s, start);
                } else if same_tag(tag, ascii('F', 'A', 'L', 'L')) {
                    lemma_sub_chunk_extent::<Falloff>(s, start);
                } else if same_tag(tag, ascii('C', 'S', 'Y', 'S')) {
                    lemma_sub_chunk_extent::<CoordinateSystem>(s, start);
                }
            },
        }
    }
}

/// The coordinate system of a texture.
#[derive(Debug, Clone, Copy, PartialEq, Eq)]
pub enum CoordinateSystem {
    ObjectCoordinates,
    WorldCoordinates,
}

impl View for CoordinateSystem {
    type V = CoordinateSystem;

    open spec fn view(&self) -> CoordinateSystem {
        *self
    }
}

impl CoordinateSystem {
    /// The variant that the number `code` stands for, if there is one.
    pub open spec fn spec_from_code(code: u16) -> Option<CoordinateSystem> {
        if code == 0 {
            Some(CoordinateSystem::ObjectCoordinates)
        } else if code == 1 {
            Some(CoordinateSystem::WorldCoordinates)
        } else {
            None
        }
    }

    /// Looks up the variant that the number `code` stands for.
    pub fn from_code(code: u16) -> (r: Option<CoordinateSystem>)
        ensures
            r == Self::spec_from_code(code),
    {
        if code == 0 {
            Some(CoordinateSystem::ObjectCoordinates)
        } else if code == 1 {
            Some(CoordinateSystem::WorldCoordinates)
        } else {
            None
        }
    }
}

impl Decode<u32> for CoordinateSystem {
    open spec fn spec_decode(s: Seq<u8>, pos: int, _length: u32) -> Parsed<CoordinateSystem> {
        match spec_u16(s, pos) {
            Err(e) => Err(e),
            Ok((code, end)) => match CoordinateSystem::spec_from_code(code) {
                Some(v) => Ok((v, end)),
                None => Err(unrecognized_code(pos, code as u32)),
            },
        }
    }

    fn decode(data: &[u8], pos: usize, _length: u32) -> (r: Decoded<CoordinateSystem>) {
        let (code, end) = read_u16(data, pos)?;
        match CoordinateSystem::from_code(code) {
            Some(v) => Ok((v, end)),
            None =>
                Err(DecodeError::UnrecognizedTag { pos: pos as u64, tag: code_tag(code as u32) }),
        }
    }
}

/// The name of the object whose motion a texture follows.
#[derive(Debug, PartialEq, Eq)]
pub struct ReferenceObject {
    pub object_name: String,
}

pub struct ReferenceObjectView {
    pub object_name: Seq<char>,
}

impl View for ReferenceObject {
    type V = ReferenceObjectView;

    open spec fn view(&self) -> ReferenceObjectView {
        ReferenceObjectView { object_name: self.object_name@ }
    }
}

impl Decode<u32> for ReferenceObject {
    open spec fn spec_decode(s: Seq<u8>, pos: int, _length: u32) -> Parsed<ReferenceObjectView> {
        match spec_lwo_null_string(s, pos) {
            Err(e) => Err(e),
            Ok((object_name, end)) => Ok((ReferenceObjectView { object_name }, end)),
        }
    }

    fn decode(data: &[u8], pos: usize, _length: u32) -> (r: Decoded<ReferenceObject>) {
        let (object_name, end) = lwo_null_string(data, pos)?;
        Ok((ReferenceObject { object_name }, end))
    }
}

/// The fading of a texture with distance.
#[derive(Debug, Clone, Copy, PartialEq, Eq)]
pub struct Falloff {
    /// The shape of the fading.
    pub kind: FalloffType,
    /// The rate of fading per unit of distance along each axis.
    pub vector: [Float; 3],
    /// The index of the envelope, zero where there is none.
    pub envelope: u32,
}

impl View for Falloff {
    type V = Falloff;

    open spec fn view(&self) -> Falloff {
        *self
    }
}

impl Decode<u32> for Falloff {
    open spec fn spec_decode(s: Seq<u8>, pos: int, _length: u32) -> Parsed<Falloff> {
        match FalloffType::spec_decode(s, pos, ()) {
            Err(e) => Err(e),
            Ok((kind, p1)) => match spec_vec3(s, p1) {
                Err(e) => Err(e),
                Ok((vector, p2)) => match spec_vx(s, p2) {
                    Err(e) => Err(e),
                    Ok((envelope, end)) => Ok((Falloff { kind, vector, envelope }, end)),
                },
            },
        }
    }

    fn decode(data: &[u8], pos: usize, _length: u32) -> (r: Decoded<Falloff>) {
        let (kind, p1) = FalloffType::decode(data, pos, ())?;
        let (vector, p2) = read_vec3(data, p1)?;
        let (envelope, end) = vx(data, p2)?;
        Ok((Falloff { kind, vector, envelope }, end))
    }
}

/// The shape of a texture's fading.
#[derive(Debug, Clone, Copy, PartialEq, Eq)]
pub enum FalloffType {
    Cubic,
    Spherical,
    LinearX,
    LinearY,
    LinearZ,
}

impl View for FalloffType {
    type V = FalloffType;

    open spec fn view(&self) -> FalloffType {
        *self
    }
}

impl FalloffType {
    /// The variant that the number `code` stands for, if there is one.
    pub open spec fn spec_from_code(code: u16) -> Option<FalloffType> {
        if code == 0 {
            Some(FalloffType::Cubic)
        } else if code == 1 {
            Some(FalloffType::Spherical)
        } else if code == 2 {
            Some(FalloffType::LinearX)
        } else if code == 3 {
            Some(FalloffType::LinearY)
        } else if code == 4 {
            Some(FalloffType::LinearZ)
        } else {
            None
        }
    }

    /// Looks up the variant that the number `code` stands for.
    pub fn from_code(code: u16) -> (r: Option<FalloffType>)
        ensures
            r == Self::spec_from_code(code),
    {
        if code == 0 {
            Some(FalloffType::Cubic)
        } else if code == 1 {
            Some(FalloffType::Spherical)
        } else if code == 2 {
            Some(FalloffType::LinearX)
        } else if code == 3 {
            Some(FalloffType::LinearY)
        } else if code == 4 {
            Some(FalloffType::LinearZ)
        } else {
            None
        }
    }
}

impl Decode<()> for FalloffType {
    open spec fn spec_decode(s: Seq<u8>, pos: int, _args: ()) -> Parsed<FalloffType> {
        match spec_u16(s, pos) {
            Err(e) => Err(e),
            Ok((code, end)) => match FalloffType::spec_from_code(code) {
                Some(v) => Ok((v, end)),
                None => Err(unrecognized_code(pos, code as u32)),
            },
        }
    }

    fn decode(data: &[u8], pos: usize, _args: ()) -> (r: Decoded<FalloffType>) {
        let (code, end) = read_u16(data, pos)?;
        match FalloffType::from_code(code) {
            Some(v) => Ok((v, end)),
            None =>
                Err(DecodeError::UnrecognizedTag { pos: pos as u64, tag: code_tag(code as u32) }),
        }
    }
}

impl Element<()> for FalloffType {
    proof fn lemma_advances(s: Seq<u8>, pos: int, _args: ()) {
    }
}

} // verus!

use crate::decode::{
    ascii, code_tag, Decode, Decoded, Element, Float, Parsed, read_float, read_tag, read_u16,
    same_tag, spec_float, spec_tag, spec_u16, tags_equal, unrecognized_code,
};
use crate::error::DecodeError;
use crate::helpers::{lwo_null_string, spec_lwo_null_string};
use crate::iff::{lemma_sub_chunk_extent, SubChunk, SubChunkView};
use crate::lwo2::{spec_vx, vx};
use crate::lwo2::sub_tags::{ValueEnvelope, VxReference};
use crate::lwo2::sub_tags::blocks::texture_mapping::{TextureMapping, TextureMappingView};
use vstd::prelude::*;

verus! {

/// One sub-record of an image map texture.
#[derive(Debug, PartialEq, Eq)]
pub enum SurfaceBlockImageTextureSubChunk {
    /// How the texture is placed in space.
    TextureMapping(SubChunk<TextureMapping>),
    /// How the image is wrapped onto the surface.
    ProjectionMode(SubChunk<ProjectionMode>),
    /// The axis of the projection.
    MajorAxis(SubChunk<MajorAxis>),
    /// The clip that holds the image.
    ImageMap(SubChunk<VxReference>),
    /// What lies outside the image, in width and in height.
    ImageWrapOptions(SubChunk<ImageWrapOptions>),
    /// How often the image wraps around in width.
    ImageWrapAmountWidth(SubChunk<ImageWrapAmount>),
    /// How often the image wraps around in height.
    ImageWrapAmountHeight(SubChunk<ImageWrapAmount>),
    /// The vertex map that holds the texture coordinates.
    UvVertexMap(SubChunk<UvMap>),
    /// The strength of the antialiasing.
    AntialiasingStrength(SubChunk<AntialiasingStrength>),
    /// Whether magnified pixels are blended.
    PixelBlending(SubChunk<PixelBlending>),
    /// The time at which a front projection is fixed.
    StickyProjection(SubChunk<ValueEnvelope>),
    /// The amplitude of a bump texture.
    TextureAmplitude(SubChunk<ValueEnvelope>),
}

pub enum SurfaceBlockImageTextureSubChunkView {
    TextureMapping(SubChunkView<TextureMappingView>),
    ProjectionMode(SubChunkView<ProjectionMode>),
    MajorAxis(SubChunkView<MajorAxis>),
    ImageMap(SubChunkView<VxReference>),
    ImageWrapOptions(SubChunkView<ImageWrapOptions>),
    ImageWrapAmountWidth(SubChunkView<ImageWrapAmount>),
    ImageWrapAmountHeight(SubChunkView<ImageWrapAmount>),
    UvVertexMap(SubChunkView<UvMapView>),
    AntialiasingStrength(SubChunkView<AntialiasingStrength>),
    PixelBlending(SubChunkView<PixelBlending>),
    StickyProjection(SubChunkView<ValueEnvelope>),
    TextureAmplitude(SubChunkView<ValueEnvelope>),
}

impl View for SurfaceBlockImageTextureSubChunk {
    type V = SurfaceBlockImageTextureSubChunkView;

    open spec fn view(&self) -> SurfaceBlockImageTextureSubChunkView {
        match self {
            SurfaceBlockImageTextureSubChunk::TextureMapping(chunk) =>
                SurfaceBlockImageTextureSubChunkView::TextureMapping(chunk@),
            SurfaceBlockImageTextureSubChunk::ProjectionMode(chunk) =>
                SurfaceBlockImageTextureSubChunkView::ProjectionMode(chunk@),
            SurfaceBlockImageTextureSubChunk::MajorAxis(chunk) =>
                SurfaceBlockImageTextureSubChunkView::MajorAxis(chunk@),
            SurfaceBlockImageTextureSubChunk::ImageMap(chunk) =>
                SurfaceBlockImageTextureSubChunkView::ImageMap(chunk@),
            SurfaceBlockImageTextureSubChunk::ImageWrapOptions(chunk) =>
                SurfaceBlockImageTextureSubChunkView::ImageWrapOptions(chunk@),
            SurfaceBlockImageTextureSubChunk::ImageWrapAmountWidth(chunk) =>
                SurfaceBlockImageTextureSubChunkView::ImageWrapAmountWidth(chunk@),
            SurfaceBlockImageTextureSubChunk::ImageWrapAmountHeight(chunk) =>
                SurfaceBlockImageTextureSubChunkView::ImageWrapAmountHeight(chunk@),
            SurfaceBlockImageTextureSubChunk::UvVertexMap(chunk) =>
                SurfaceBlockImageTextureSubChunkView::UvVertexMap(chunk@),
            SurfaceBlockImageTextureSubChunk::AntialiasingStrength(chunk) =>
                SurfaceBlockImageTextureSubChunkView::AntialiasingStrength(chunk@),
            SurfaceBlockImageTextureSubChunk::PixelBlending(chunk) =>
                SurfaceBlockImageTextureSubChunkView::PixelBlending(chunk@),
            SurfaceBlockImageTextureSubChunk::StickyProjection(chunk) =>
                SurfaceBlockImageTextureSubChunkView::StickyProjection(chunk@),
            SurfaceBlockImageTextureSubChunk::TextureAmplitude(chunk) =>
                SurfaceBlockImageTextureSubChunkView::TextureAmplitude(chunk@),
        }
    }
}

impl Decode<()> for SurfaceBlockImageTextureSubChunk {
    open spec fn spec_decode(s: Seq<u8>, pos: int, _args: ()) -> Parsed<
        SurfaceBlockImageTextureSubChunkView,
    > {
        match spec_tag(s, pos) {
            Err(e) => Err(e),
            Ok((tag, start)) => if same_tag(tag, ascii('T', 'M', 'A', 'P')) {
                match SubChunk::<TextureMapping>::spec_decode(s, start, ()) {
                    Err(e) => Err(e),
                    Ok((chunk, end)) =>
                        Ok((SurfaceBlockImageTextureSubChunkView::TextureMapping(chunk), end)),
                }
            } else if same_tag(tag, ascii('P', 'R', 'O', 'J')) {
                match SubChunk::<ProjectionMode>::spec_decode(s, start, ()) {
                    Err(e) => Err(e),
                    Ok((chunk, end)) =>
                        Ok((SurfaceBlockImageTextureSubChunkView::ProjectionMode(chunk), end)),
                }
            } else if same_tag(tag, ascii('A', 'X', 'I', 'S')) {
                match SubChunk::<MajorAxis>::spec_decode(s, start, ()) {
                    Err(e) => Err(e),
                    Ok((chunk, end)) =>
                        Ok((SurfaceBlockImageTextureSubChunkView::MajorAxis(chunk), end)),
                }
            } else if same_tag(tag, ascii('I', 'M', 'A', 'G')) {
                match SubChunk::<VxReference>::spec_decode(s, start, ()) {
                    Err(e) => Err(e),
                    Ok((chunk, end)) =>
                        Ok((SurfaceBlockImageTextureSubChunkView::ImageMap(chunk), end)),
                }
            } else if same_tag(tag, ascii('W', 'R', 'A', 'P')) {
                match SubChunk::<ImageWrapOptions>::spec_decode(s, start, ()) {
                    Err(e) => Err(e),
                    Ok((chunk, end)) =>
                        Ok((SurfaceBlockImageTextureSubChunkView::ImageWrapOptions(chunk), end)),
                }
            } else if same_tag(tag, ascii('W', 'R', 'P', 'W')) {
                match SubChunk::<ImageWrapAmount>::spec_decode(s, start, ()) {
                    Err(e) => Err(e),
                    Ok((chunk, end)) =>
                        Ok((SurfaceBlockImageTextureSubChunkView::ImageWrapAmountWidth(chunk), end)),
                }
            } else if same_tag(tag, ascii('W', 'R', 'P', 'H')) {
                match SubChunk::<ImageWrapAmount>::spec_decode(s, start, ()) {
                    Err(e) => Err(e),
                    Ok((chunk, end)) =>
                        Ok((SurfaceBlockImageTextureSubChunkView::ImageWrapAmountHeight(chunk), end)),
                }
            } else if same_tag(tag, ascii('V', 'M', 'A', 'P')) {
                match SubChunk::<UvMap>::spec_decode(s, start, ()) {
                    Err(e) => Err(e),
                    Ok((chunk, end)) =>
                        Ok((SurfaceBlockImageTextureSubChunkView::UvVertexMap(chunk), end)),
                }
            } else if same_tag(tag, ascii('A', 'A', 'S', 'T')) {
                match SubChunk::<AntialiasingStrength>::spec_decode(s, start, ()) {
                    Err(e) => Err(e),
                    Ok((chunk, end)) =>
                        Ok((SurfaceBlockImageTextureSubChunkView::AntialiasingStrength(chunk), end)),
                }
            } else if same_tag(tag, ascii('P', 'I', 'X', 'B')) {
                match SubChunk::<PixelBlending>::spec_decode(s, start, ()) {
                    Err(e) => Err(e),
                    Ok((chunk, end)) =>
                        Ok((SurfaceBlockImageTextureSubChunkView::PixelBlending(chunk), end)),
                }
            } else if same_tag(tag, ascii('S', 'T', 'C', 'K')) {
                match SubChunk::<ValueEnvelope>::spec_decode(s, start, ()) {
                    Err(e) => Err(e),
                    Ok((chunk, end)) =>
                        Ok((SurfaceBlockImageTextureSubChunkView::StickyProjection(chunk), end)),
                }
            } else if same_tag(tag, ascii('T', 'A', 'M', 'P')) {
                match SubChunk::<ValueEnvelope>::spec_decode(s, start, ()) {
                    Err(e) => Err(e),
                    Ok((chunk, end)) =>
                        Ok((SurfaceBlockImageTextureSubChunkView::TextureAmplitude(chunk), end)),
                }
            } else {
                Err(DecodeError::UnrecognizedTag { pos: pos as u64, tag })
            },
        }
    }

    fn decode(data: &[u8], pos: usize, _args: ()) -> (r: Decoded<
        SurfaceBlockImageTextureSubChunk,
    >) {
        let (tag, start) = read_tag(data, pos)?;
        if tags_equal(&tag, &ascii('T', 'M', 'A', 'P')) {
            let (chunk, end) = SubChunk::<TextureMapping>::decode(data, start, ())?;
            Ok((SurfaceBlockImageTextureSubChunk::TextureMapping(chunk), end))
        } else if tags_equal(&tag, &ascii('P', 'R', 'O', 'J')) {
            let (chunk, end) = SubChunk::<ProjectionMode>::decode(data, start, ())?;
            Ok((SurfaceBlockImageTextureSubChunk::ProjectionMode(chunk), end))
        } else if tags_equal(&tag, &ascii('A', 'X', 'I', 'S')) {
            let (chunk, end) = SubChunk::<MajorAxis>::decode(data, start, ())?;
            Ok((SurfaceBlockImageTextureSubChunk::MajorAxis(chunk), end))
        } else if tags_equal(&tag, &ascii('I', 'M', 'A', 'G')) {
            let (chunk, end) = SubChunk::<VxReference>::decode(data, start, ())?;
            Ok((SurfaceBlockImageTextureSubChunk::ImageMap(chunk), end))
        } else if tags_equal(&tag, &ascii('W', 'R', 'A', 'P')) {
            let (chunk, end) = SubChunk::<ImageWrapOptions>::decode(data, start, ())?;
            Ok((SurfaceBlockImageTextureSubChunk::ImageWrapOptions(chunk), end))
        } else if tags_equal(&tag, &ascii('W', 'R', 'P', 'W')) {
            let (chunk, end) = SubChunk::<ImageWrapAmount>::decode(data, start, ())?;
            Ok((SurfaceBlockImageTextureSubChunk::ImageWrapAmountWidth(chunk), end))
        } else if tags_equal(&tag, &ascii('W', 'R', 'P', 'H')) {
            let (chunk, end) = SubChunk::<ImageWrapAmount>::decode(data, start, ())?;
            Ok((SurfaceBlockImageTextureSubChunk::ImageWrapAmountHeight(chunk), end))
        } else if tags_equal(&tag, &ascii('V', 'M', 'A', 'P')) {
            let (chunk, end) = SubChunk::<UvMap>::decode(data, start, ())?;
            Ok((SurfaceBlockImageTextureSubChunk::UvVertexMap(chunk), end))
        } else if tags_equal(&tag, &ascii('A', 'A', 'S', 'T')) {
            let (chunk, end) = SubChunk::<AntialiasingStrength>::decode(data, start, ())?;
            Ok((SurfaceBlockImageTextureSubChunk::AntialiasingStrength(chunk), end))
        } else if tags_equal(&tag, &ascii('P', 'I', 'X', 'B')) {
            let (chunk, end) = SubChunk::<PixelBlending>::decode(data, start, ())?;
            Ok((SurfaceBlockImageTextureSubChunk::PixelBlending(chunk), end))
        } else if tags_equal(&tag, &ascii('S', 'T', 'C', 'K')) {
            let (chunk, end) = SubChunk::<ValueEnvelope>::decode(data, start, ())?;
            Ok((SurfaceBlockImageTextureSubChunk::StickyProjection(chunk), end))
        } else if tags_equal(&tag, &ascii('T', 'A', 'M', 'P')) {
            let (chunk, end) = SubChunk::<ValueEnvelope>::decode(data, start, ())?;
            Ok((SurfaceBlockImageTextureSubChunk::TextureAmplitude(chunk), end))
        } else {
            Err(DecodeError::UnrecognizedTag { pos: pos as u64, tag })
        }
    }
}

impl Element<()> for SurfaceBlockImageTextureSubChunk {
    proof fn lemma_advances(s: Seq<u8>, pos: int, _args: ()) {
        match spec_tag(s, pos) {
            Err(_) => {},
            Ok((tag, start)) => {
                if same_tag(tag, ascii('T', 'M', 'A', 'P')) {
                    lemma_sub_chunk_extent::<TextureMapping>(s, start);
                } else if same_tag(tag, ascii('P', 'R', 'O', 'J')) {
                    lemma_sub_chunk_extent::<ProjectionMode>(s, start);
                } else if same_tag(tag, ascii('A', 'X', 'I', 'S')) {
                    lemma_sub_chunk_extent::<MajorAxis>(s, start);
                } else if same_tag(tag, ascii('I', 'M', 'A', 'G')) {
                    lemma_sub_chunk_extent::<VxReference>(s, start);
                } else if same_tag(tag, ascii('W', 'R', 'A', 'P')) {
                    lemma_sub_chunk_extent::<ImageWrapOptions>(s, start);
                } else if same_tag(tag, ascii('W', 'R', 'P', 'W')) {
                    lemma_sub_chunk_extent::<ImageWrapAmount>(s, start);
                } else if same_tag(tag, ascii('W', 'R', 'P', 'H')) {
                    lemma_sub_chunk_extent::<ImageWrapAmount>(s, start);
                } else if same_tag(tag, ascii('V', 'M', 'A', 'P')) {
                    lemma_sub_chunk_extent::<UvMap>(s, start);
                } else if same_tag(tag, ascii('A', 'A', 'S', 'T')) {
                    lemma_sub_chunk_extent::<AntialiasingStrength>(s, start);
                } else if same_tag(tag, ascii('P', 'I', 'X', 'B')) {
                    lemma_sub_chunk_extent::<PixelBlending>(s, start);
                } else if same_tag(tag, ascii('S', 'T', 'C', 'K')) {
                    lemma_sub_chunk_extent::<ValueEnvelope>(s, start);
                } else if same_tag(tag, ascii('T', 'A', 'M', 'P')) {
                    lemma_sub_chunk_extent::<ValueEnvelope>(s, start);
                }
            },
        }
    }
}

/// The axis of a projection: 0, 1 or 2 for X, Y or Z.
#[derive(Debug, Clone, Copy, PartialEq, Eq)]
pub struct MajorAxis {
    pub texture_axis: u16,
}

impl View for MajorAxis {
    type V = MajorAxis;

    open spec fn view(&self) -> MajorAxis {
        *self
    }
}

impl Decode<u32> for MajorAxis {
    open spec fn spec_decode(s: Seq<u8>, pos: int, _length: u32) -> Parsed<MajorAxis> {
        match spec_u16(s, pos) {
            Err(e) => Err(e),
            Ok((texture_axis, end)) => Ok((MajorAxis { texture_axis }, end)),
        }
    }

    fn decode(data: &[u8], pos: usize, _length: u32) -> (r: Decoded<MajorAxis>) {
        let (texture_axis, end) = read_u16(data, pos)?;
        Ok((MajorAxis { texture_axis }, end))
    }
}

/// Flags of pixel blending; bit 0 asks for it.
#[derive(Debug, Clone, Copy, PartialEq, Eq)]
pub struct PixelBlending {
    pub flags: u16,
}

impl View for PixelBlending {
    type V = PixelBlending;

    open spec fn view(&self) -> PixelBlending {
        *self
    }
}

impl Decode<u32> for PixelBlending {
    open spec fn spec_decode(s: Seq<u8>, pos: int, _length: u32) -> Parsed<PixelBlending> {
        match spec_u16(s, pos) {
            Err(e) => Err(e),
            Ok((flags, end)) => Ok((PixelBlending { flags }, end)),
        }
    }

    fn decode(data: &[u8], pos: usize, _length: u32) -> (r: Decoded<PixelBlending>) {
        let (flags, end) = read_u16(data, pos)?;
        Ok((PixelBlending { flags }, end))
    }
}

/// The antialiasing of an image texture.
#[derive(Debug, Clone, Copy, PartialEq, Eq)]
pub struct AntialiasingStrength {
    /// Bit 0 switches antialiasing on.
    pub flags: u16,
    pub strength: Float,
}

impl View for AntialiasingStrength {
    type V = AntialiasingStrength;

    open spec fn view(&self) -> AntialiasingStrength {
        *self
    }
}

impl Decode<u32> for AntialiasingStrength {
    open spec fn spec_decode(s: Seq<u8>, pos: int, _length: u32) -> Parsed<AntialiasingStrength> {
        match spec_u16(s, pos) {
            Err(e) => Err(e),
            Ok((flags, p1)) => match spec_float(s, p1) {
                Err(e) => Err(e),
                Ok((strength, end)) => Ok((AntialiasingStrength { flags, strength }, end)),
            },
        }
    }

    fn decode(data: &[u8], pos: usize, _length: u32) -> (r: Decoded<AntialiasingStrength>) {
        let (flags, p1) = read_u16(data, pos)?;
        let (strength, end) = read_float(data, p1)?;
        Ok((AntialiasingStrength { flags, strength }, end))
    }
}

/// The name of the vertex map that holds texture coordinates.
#[derive(Debug, PartialEq, Eq)]
pub struct UvMap {
    pub txuv_map_name: String,
}

pub struct UvMapView {
    pub txuv_map_name: Seq<char>,
}

impl View for UvMap {
    type V = UvMapView;

    open spec fn view(&self) -> UvMapView {
        UvMapView { txuv_map_name: self.txuv_map_name@ }
    }
}

impl Decode<u32> for UvMap {
    open spec fn spec_decode(s: Seq<u8>, pos: int, _length: u32) -> Parsed<UvMapView> {
        match spec_lwo_null_string(s, pos) {
            Err(e) => Err(e),
            Ok((txuv_map_name, end)) => Ok((UvMapView { txuv_map_name }, end)),
        }
    }

    fn decode(data: &[u8], pos: usize, _length: u32) -> (r: Decoded<UvMap>) {
        let (txuv_map_name, end) = lwo_null_string(data, pos)?;
        Ok((UvMap { txuv_map_name }, end))
    }
}

/// How often an image wraps around a cylinder or sphere.
#[derive(Debug, Clone, Copy, PartialEq, Eq)]
pub struct ImageWrapAmount {
    pub cycles: Float,
    /// The index of the envelope, zero where there is none.
    pub envelope: u32,
}

impl View for ImageWrapAmount {
    type V = ImageWrapAmount;

    open spec fn view(&self) -> ImageWrapAmount {
        *self
    }
}

impl Decode<u32> for ImageWrapAmount {
    open spec fn spec_decode(s: Seq<u8>, pos: int, _length: u32) -> Parsed<ImageWrapAmount> {
        match spec_float(s, pos) {
            Err(e) => Err(e),
            Ok((cycles, p1)) => match spec_vx(s, p1) {
                Err(e) => Err(e),
                Ok((envelope, end)) => Ok((ImageWrapAmount { cycles, envelope }, end)),
            },
        }
    }

    fn decode(data: &[u8], pos: usize, _length: u32) -> (r: Decoded<ImageWrapAmount>) {
        let (cycles, p1) = read_float(data, pos)?;
        let (envelope, end) = vx(data, p1)?;
        Ok((ImageWrapAmount { cycles, envelope }, end))
    }
}

/// What lies outside the image, in width and in height.
#[derive(Debug, Clone, Copy, PartialEq, Eq)]
pub struct ImageWrapOptions {
    pub width_wrap: ImageWrapType,
    pub height_wrap: ImageWrapType,
}

impl View for ImageWrapOptions {
    type V = ImageWrapOptions;

    open spec fn view(&self) -> ImageWrapOptions {
        *self
    }
}

impl Decode<u32> for ImageWrapOptions {
    open spec fn spec_decode(s: Seq<u8>, pos: int, _length: u32) -> Parsed<ImageWrapOptions> {
        match ImageWrapType::spec_decode(s, pos, ()) {
            Err(e) => Err(e),
            Ok((width_wrap, p1)) => match ImageWrapType::spec_decode(s, p1, ()) {
                Err(e) => Err(e),
                Ok((height_wrap, end)) => Ok((ImageWrapOptions { width_wrap, height_wrap }, end)),
            },
        }
    }

    fn decode(data: &[u8], pos: usize, _length: u32) -> (r: Decoded<ImageWrapOptions>) {
        let (width_wrap, p1) = ImageWrapType::decode(data, pos, ())?;
        let (height_wrap, end) = ImageWrapType::decode(data, p1, ())?;
        Ok((ImageWrapOptions { width_wrap, height_wrap }, end))
    }
}

/// What lies outside an image.
#[derive(Debug, Clone, Copy, PartialEq, Eq)]
pub enum ImageWrapType {
    /// Nothing: outside the image the texture is clear.
    Reset,
    /// The image again.
    Repeat,
    /// The image again, mirrored.
    Mirror,
    /// The colour of the image's nearest edge.
    Edge,
}

impl View for ImageWrapType {
    type V = ImageWrapType;

    open spec fn view(&self) -> ImageWrapType {
        *self
    }
}

impl ImageWrapType {
    /// The variant that the number `code` stands for, if there is one.
    pub open spec fn spec_from_code(code: u16) -> Option<ImageWrapType> {
        if code == 0 {
            Some(ImageWrapType::Reset)
        } else if code == 1 {
            Some(ImageWrapType::Repeat)
        } else if code == 2 {
            Some(ImageWrapType::Mirror)
        } else if code == 3 {
            Some(ImageWrapType::Edge)
        } else {
            None
        }
    }

    /// Looks up the variant that the number `code` stands for.
    pub fn from_code(code: u16) -> (r: Option<ImageWrapType>)
        ensures
            r == Self::spec_from_code(code),
    {
        if code == 0 {
            Some(ImageWrapType::Reset)
        } else if code == 1 {
            Some(ImageWrapType::Repeat)
        } else if code == 2 {
            Some(ImageWrapType::Mirror)
        } else if code == 3 {
            Some(ImageWrapType::Edge)
        } else {
            None
        }
    }
}

impl Decode<()> for ImageWrapType {
    open spec fn spec_decode(s: Seq<u8>, pos: int, _args: ()) -> Parsed<ImageWrapType> {
        match spec_u16(s, pos) {
            Err(e) => Err(e),
            Ok((code, end)) => match ImageWrapType::spec_from_code(code) {
                Some(v) => Ok((v, end)),
                None => Err(unrecognized_code(pos, code as u32)),
            },
        }
    }

    fn decode(data: &[u8], pos: usize, _args: ()) -> (r: Decoded<ImageWrapType>) {
        let (code, end) = read_u16(data, pos)?;
        match ImageWrapType::from_code(code) {
            Some(v) => Ok((v, end)),
            None =>
                Err(DecodeError::UnrecognizedTag { pos: pos as u64, tag: code_tag(code as u32) }),
        }
    }
}

impl Element<()> for ImageWrapType {
    proof fn lemma_advances(s: Seq<u8>, pos: int, _args: ()) {
    }
}

/// How an image is wrapped onto a surface.
#[derive(Debug, Clone, Copy, PartialEq, Eq)]
pub enum ProjectionMode {
    Planar,
    Cylindrical,
    Spherical,
    Cubic,
    FrontProjection,
    UV,
}

impl View for ProjectionMode {
    type V = ProjectionMode;

    open spec fn view(&self) -> ProjectionMode {
        *self
    }
}

impl ProjectionMode {
    /// The variant that the number `code` stands for, if there is one.
    pub open spec fn spec_from_code(code: u16) -> Option<ProjectionMode> {
        if code == 0 {
            Some(ProjectionMode::Planar)
        } else if code == 1 {
            Some(ProjectionMode::Cylindrical)
        } else if code == 2 {
            Some(ProjectionMode::Spherical)
        } else if code == 3 {
            Some(ProjectionMode::Cubic)
        } else if code == 4 {
            Some(ProjectionMode::FrontProjection)
        } else if code == 5 {
            Some(ProjectionMode::UV)
        } else {
            None
        }
    }

    /// Looks up the variant that the number `code` stands for.
    pub fn from_code(code: u16) -> (r: Option<ProjectionMode>)
        ensures
            r == Self::spec_from_code(code),
    {
        if code == 0 {
            Some(ProjectionMode::Planar)
        } else if code == 1 {
            Some(ProjectionMode::Cylindrical)
        } else if code == 2 {
            Some(ProjectionMode::Spherical)
        } else if code == 3 {
            Some(ProjectionMode::Cubic)
        } else if code == 4 {
            Some(ProjectionMode::FrontProjection)
        } else if code == 5 {
            Some(ProjectionMode::UV)
        } else {
            None
        }
    }
}

impl Decode<u32> for ProjectionMode {
    open spec fn spec_decode(s: Seq<u8>, pos: int, _length: u32) -> Parsed<ProjectionMode> {
        match spec_u16(s, pos) {
            Err(e) => Err(e),
            Ok((code, end)) => match ProjectionMode::spec_from_code(code) {
                Some(v) => Ok((v, end)),
                None => Err(unrecognized_code(pos, code as u32)),
            },
        }
    }

    fn decode(data: &[u8], pos: usize, _length: u32) -> (r: Decoded<ProjectionMode>) {
        let (code, end) = read_u16(data, pos)?;
        match ProjectionMode::from_code(code) {
            Some(v) => Ok((v, end)),
            None =>
                Err(DecodeError::UnrecognizedTag { pos: pos as u64, tag: code_tag(code as u32) }),
        }
    }
}

} // verus!

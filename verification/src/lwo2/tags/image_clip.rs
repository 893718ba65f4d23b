use crate::decode::{
    ascii, Decode, Decoded, Element, Float, Parsed, read_aligned_null_string, read_bytes,
    read_float, read_i16, read_tag, read_u16, read_u32, read_u8, same_tag,
    spec_aligned_null_string, spec_bytes, spec_float, spec_i16, spec_tag, spec_u16, spec_u32,
    spec_u8, tags_equal, views,
};
use crate::error::DecodeError;
use crate::helpers::{spec_until_size_limit, until_size_limit};
use crate::iff::{lemma_sub_chunk_extent, SubChunk, SubChunkView};
use crate::lwo2::sub_tags::{EnableState, ValueEnvelope};
use crate::lwo2::sub_tags::plugin::{PluginServerNameAndData, PluginServerNameAndDataView};
use vstd::prelude::*;

verus! {

/// An image or a sequence of images. Surfaces refer to a clip by its index.
#[derive(Debug, PartialEq, Eq)]
pub struct ImageClip {
    /// The index by which the clip is referred to.
    pub index: u32,
    pub attributes: Vec<ImageClipSubChunk>,
}

pub struct ImageClipView {
    pub index: u32,
    pub attributes: Seq<ImageClipSubChunkView>,
}

impl View for ImageClip {
    type V = ImageClipView;

    open spec fn view(&self) -> ImageClipView {
        ImageClipView { index: self.index, attributes: views(self.attributes@) }
    }
}

impl Decode<u32> for ImageClip {
    /// The declared length has to hold the index; what is left of it is the
    /// budget of the sub-records.
    open spec fn spec_decode(s: Seq<u8>, pos: int, length: u32) -> Parsed<ImageClipView> {
        match spec_u32(s, pos) {
            Err(e) => Err(e),
            Ok((index, p1)) => if length < 4 {
                Err(DecodeError::StructuralAssertion { pos: pos as u64 })
            } else {
                match spec_until_size_limit::<ImageClipSubChunk, ()>(s, p1, length - 4, ()) {
                    Err(e) => Err(e),
                    Ok((attributes, end)) => Ok((ImageClipView { index, attributes }, end)),
                }
            },
        }
    }

    fn decode(data: &[u8], pos: usize, length: u32) -> (r: Decoded<ImageClip>) {
        let (index, p1) = read_u32(data, pos)?;
        if length < 4 {
            return Err(DecodeError::StructuralAssertion { pos: pos as u64 });
        }
        let (attributes, end) = until_size_limit::<ImageClipSubChunk, ()>(
            data,
            p1,
            (length - 4) as u64,
            (),
        )?;
        Ok((ImageClip { index, attributes }, end))
    }
}

/// One sub-record of an image clip.
#[derive(Debug, PartialEq, Eq)]
pub enum ImageClipSubChunk {
    /// A single image.
    StillImage(SubChunk<StillImage>),
    /// A numbered sequence of images.
    ImageSequence(SubChunk<ImageSequence>),
    /// An animation that a plug-in reads.
    PluginAnimation(SubChunk<PluginAnimation>),
    /// A copy of another clip.
    Reference(SubChunk<Reference>),
    /// Flags of the clip.
    Flag(SubChunk<Flags>),
    /// A single image whose palette cycles.
    ColorCyclingStill(SubChunk<ColorCyclingStill>),
    /// The start, length and frame rate of the clip.
    Time(SubChunk<Time>),
    /// The colour space of the colours.
    ColorSpaceRgb(SubChunk<ColorSpace>),
    /// The colour space of the alpha.
    ColorSpaceAlpha(SubChunk<ColorSpace>),
    /// Flags of filtering.
    ImageFiltering(SubChunk<Flags>),
    /// Flags of dithering.
    ImageDithering(SubChunk<Flags>),
    /// A change of contrast.
    Contrast(SubChunk<ValueEnvelope>),
    /// A change of brightness.
    Brightness(SubChunk<ValueEnvelope>),
    /// A change of saturation.
    Saturation(SubChunk<ValueEnvelope>),
    /// A turn of the hue.
    Hue(SubChunk<ValueEnvelope>),
    /// A gamma correction.
    GammaCorrection(SubChunk<ValueEnvelope>),
    /// Whether the image is inverted.
    Negative(SubChunk<EnableState>),
    /// A plug-in that filters the image.
    PluginImageFilters(SubChunk<PluginServerNameAndData>),
    /// A plug-in that filters each pixel.
    PluginPixelFilters(SubChunk<PluginServerNameAndData>),
}

pub enum ImageClipSubChunkView {
    StillImage(SubChunkView<StillImageView>),
    ImageSequence(SubChunkView<ImageSequenceView>),
    PluginAnimation(SubChunkView<PluginAnimationView>),
    Reference(SubChunkView<ReferenceView>),
    Flag(SubChunkView<Flags>),
    ColorCyclingStill(SubChunkView<ColorCyclingStillView>),
    Time(SubChunkView<Time>),
    ColorSpaceRgb(SubChunkView<ColorSpaceView>),
    ColorSpaceAlpha(SubChunkView<ColorSpaceView>),
    ImageFiltering(SubChunkView<Flags>),
    ImageDithering(SubChunkView<Flags>),
    Contrast(SubChunkView<ValueEnvelope>),
    Brightness(SubChunkView<ValueEnvelope>),
    Saturation(SubChunkView<ValueEnvelope>),
    Hue(SubChunkView<ValueEnvelope>),
    GammaCorrection(SubChunkView<ValueEnvelope>),
    Negative(SubChunkView<EnableState>),
    PluginImageFilters(SubChunkView<PluginServerNameAndDataView>),
    PluginPixelFilters(SubChunkView<PluginServerNameAndDataView>),
}

impl View for ImageClipSubChunk {
    type V = ImageClipSubChunkView;

    open spec fn view(&self) -> ImageClipSubChunkView {
        match self {
            ImageClipSubChunk::StillImage(chunk) => ImageClipSubChunkView::StillImage(chunk@),
            ImageClipSubChunk::ImageSequence(chunk) => ImageClipSubChunkView::ImageSequence(chunk@),
            ImageClipSubChunk::PluginAnimation(chunk) =>
                ImageClipSubChunkView::PluginAnimation(chunk@),
            ImageClipSubChunk::Reference(chunk) => ImageClipSubChunkView::Reference(chunk@),
            ImageClipSubChunk::Flag(chunk) => ImageClipSubChunkView::Flag(chunk@),
            ImageClipSubChunk::ColorCyclingStill(chunk) =>
                ImageClipSubChunkView::ColorCyclingStill(chunk@),
            ImageClipSubChunk::Time(chunk) => ImageClipSubChunkView::Time(chunk@),
            ImageClipSubChunk::ColorSpaceRgb(chunk) => ImageClipSubChunkView::ColorSpaceRgb(chunk@),
            ImageClipSubChunk::ColorSpaceAlpha(chunk) =>
                ImageClipSubChunkView::ColorSpaceAlpha(chunk@),
            ImageClipSubChunk::ImageFiltering(chunk) =>
                ImageClipSubChunkView::ImageFiltering(chunk@),
            ImageClipSubChunk::ImageDithering(chunk) =>
                ImageClipSubChunkView::ImageDithering(chunk@),
            ImageClipSubChunk::Contrast(chunk) => ImageClipSubChunkView::Contrast(chunk@),
            ImageClipSubChunk::Brightness(chunk) => ImageClipSubChunkView::Brightness(chunk@),
            ImageClipSubChunk::Saturation(chunk) => ImageClipSubChunkView::Saturation(chunk@),
            ImageClipSubChunk::Hue(chunk) => ImageClipSubChunkView::Hue(chunk@),
            ImageClipSubChunk::GammaCorrection(chunk) =>
                ImageClipSubChunkView::GammaCorrection(chunk@),
            ImageClipSubChunk::Negative(chunk) => ImageClipSubChunkView::Negative(chunk@),
            ImageClipSubChunk::PluginImageFilters(chunk) =>
                ImageClipSubChunkView::PluginImageFilters(chunk@),
            ImageClipSubChunk::PluginPixelFilters(chunk) =>
                ImageClipSubChunkView::PluginPixelFilters(chunk@),
        }
    }
}

impl Decode<()> for ImageClipSubChunk {
    open spec fn spec_decode(s: Seq<u8>, pos: int, _args: ()) -> Parsed<ImageClipSubChunkView> {
        match spec_tag(s, pos) {
            Err(e) => Err(e),
            Ok((tag, start)) => if same_tag(tag, ascii('S', 'T', 'I', 'L')) {
                match SubChunk::<StillImage>::spec_decode(s, start, ()) {
                    Err(e) => Err(e),
                    Ok((chunk, end)) => Ok((ImageClipSubChunkView::StillImage(chunk), end)),
                }
            } else if same_tag(tag, ascii('I', 'S', 'E', 'Q')) {
                match SubChunk::<ImageSequence>::spec_decode(s, start, ()) {
                    Err(e) => Err(e),
                    Ok((chunk, end)) => Ok((ImageClipSubChunkView::ImageSequence(chunk), end)),
                }
            } else if same_tag(tag, ascii('A', 'N', 'I', 'M')) {
                match SubChunk::<PluginAnimation>::spec_decode(s, start, ()) {
                    Err(e) => Err(e),
                    Ok((chunk, end)) => Ok((ImageClipSubChunkView::PluginAnimation(chunk), end)),
                }
            } else if same_tag(tag, ascii('X', 'R', 'E', 'F')) {
                match SubChunk::<Reference>::spec_decode(s, start, ()) {
                    Err(e) => Err(e),
                    Ok((chunk, end)) => Ok((ImageClipSubChunkView::Reference(chunk), end)),
                }
            } else if same_tag(tag, ascii('F', 'L', 'A', 'G')) {
                match SubChunk::<Flags>::spec_decode(s, start, ()) {
                    Err(e) => Err(e),
                    Ok((chunk, end)) => Ok((ImageClipSubChunkView::Flag(chunk), end)),
                }
            } else if same_tag(tag, ascii('S', 'T', 'C', 'C')) {
                match SubChunk::<ColorCyclingStill>::spec_decode(s, start, ()) {
                    Err(e) => Err(e),
                    Ok((chunk, end)) => Ok((ImageClipSubChunkView::ColorCyclingStill(chunk), end)),
                }
            } else if same_tag(tag, ascii('T', 'I', 'M', 'E')) {
                match SubChunk::<Time>::spec_decode(s, start, ()) {
                    Err(e) => Err(e),
                    Ok((chunk, end)) => Ok((ImageClipSubChunkView::Time(chunk), end)),
                }
            } else if same_tag(tag, ascii('C', 'L', 'R', 'S')) {
                match SubChunk::<ColorSpace>::spec_decode(s, start, ()) {
                    Err(e) => Err(e),
                    Ok((chunk, end)) => Ok((ImageClipSubChunkView::ColorSpaceRgb(chunk), end)),
                }
            } else if same_tag(tag, ascii('C', 'L', 'R', 'A')) {
                match SubChunk::<ColorSpace>::spec_decode(s, start, ()) {
                    Err(e) => Err(e),
                    Ok((chunk, end)) => Ok((ImageClipSubChunkView::ColorSpaceAlpha(chunk), end)),
                }
            } else if same_tag(tag, ascii('F', 'I', 'L', 'T')) {
                match SubChunk::<Flags>::spec_decode(s, start, ()) {
                    Err(e) => Err(e),
                    Ok((chunk, end)) => Ok((ImageClipSubChunkView::ImageFiltering(chunk), end)),
                }
            } else if same_tag(tag, ascii('D', 'I', 'T', 'H')) {
                match SubChunk::<Flags>::spec_decode(s, start, ()) {
                    Err(e) => Err(e),
                    Ok((chunk, end)) => Ok((ImageClipSubChunkView::ImageDithering(chunk), end)),
                }
            } else if same_tag(tag, ascii('C', 'O', 'N', 'T')) {
                match SubChunk::<ValueEnvelope>::spec_decode(s, start, ()) {
                    Err(e) => Err(e),
                    Ok((chunk, end)) => Ok((ImageClipSubChunkView::Contrast(chunk), end)),
                }
            } else if same_tag(tag, ascii('B', 'R', 'I', 'T')) {
                match SubChunk::<ValueEnvelope>::spec_decode(s, start, ()) {
                    Err(e) => Err(e),
                    Ok((chunk, end)) => Ok((ImageClipSubChunkView::Brightness(chunk), end)),
                }
            } else if same_tag(tag, ascii('S', 'A', 'T', 'R')) {
                match SubChunk::<ValueEnvelope>::spec_decode(s, start, ()) {
                    Err(e) => Err(e),
                    Ok((chunk, end)) => Ok((ImageClipSubChunkView::Saturation(chunk), end)),
                }
            } else if same_tag(tag, ascii('H', 'U', 'E', '\0')) {
                match SubChunk::<ValueEnvelope>::spec_decode(s, start, ()) {
                    Err(e) => Err(e),
                    Ok((chunk, end)) => Ok((ImageClipSubChunkView::Hue(chunk), end)),
                }
            } else if same_tag(tag, ascii('G', 'A', 'M', 'M')) {
                match SubChunk::<ValueEnvelope>::spec_decode(s, start, ()) {
                    Err(e) => Err(e),
                    Ok((chunk, end)) => Ok((ImageClipSubChunkView::GammaCorrection(chunk), end)),
                }
            } else if same_tag(tag, ascii('N', 'E', 'G', 'A')) {
                match SubChunk::<EnableState>::spec_decode(s, start, ()) {
                    Err(e) => Err(e),
                    Ok((chunk, end)) => Ok((ImageClipSubChunkView::Negative(chunk), end)),
                }
            } else if same_tag(tag, ascii('I', 'F', 'L', 'T')) {
                match SubChunk::<PluginServerNameAndData>::spec_decode(s, start, ()) {
                    Err(e) => Err(e),
                    Ok((chunk, end)) => Ok((ImageClipSubChunkView::PluginImageFilters(chunk), end)),
                }
            } else if same_tag(tag, ascii('P', 'F', 'L', 'T')) {
                match SubChunk::<PluginServerNameAndData>::spec_decode(s, start, ()) {
                    Err(e) => Err(e),
                    Ok((chunk, end)) => Ok((ImageClipSubChunkView::PluginPixelFilters(chunk), end)),
                }
            } else {
                Err(DecodeError::UnrecognizedTag { pos: pos as u64, tag })
            },
        }
    }

    fn decode(data: &[u8], pos: usize, _args: ()) -> (r: Decoded<ImageClipSubChunk>) {
        let (tag, start) = read_tag(data, pos)?;
        if tags_equal(&tag, &ascii('S', 'T', 'I', 'L')) {
            let (chunk, end) = SubChunk::<StillImage>::decode(data, start, ())?;
            Ok((ImageClipSubChunk::StillImage(chunk), end))
        } else if tags_equal(&tag, &ascii('I', 'S', 'E', 'Q')) {
            let (chunk, end) = SubChunk::<ImageSequence>::decode(data, start, ())?;
            Ok((ImageClipSubChunk::ImageSequence(chunk), end))
        } else if tags_equal(&tag, &ascii('A', 'N', 'I', 'M')) {
            let (chunk, end) = SubChunk::<PluginAnimation>::decode(data, start, ())?;
            Ok((ImageClipSubChunk::PluginAnimation(chunk), end))
        } else if tags_equal(&tag, &ascii('X', 'R', 'E', 'F')) {
            let (chunk, end) = SubChunk::<Reference>::decode(data, start, ())?;
            Ok((ImageClipSubChunk::Reference(chunk), end))
        } else if tags_equal(&tag, &ascii('F', 'L', 'A', 'G')) {
            let (chunk, end) = SubChunk::<Flags>::decode(data, start, ())?;
            Ok((ImageClipSubChunk::Flag(chunk), end))
        } else if tags_equal(&tag, &ascii('S', 'T', 'C', 'C')) {
            let (chunk, end) = SubChunk::<ColorCyclingStill>::decode(data, start, ())?;
            Ok((ImageClipSubChunk::ColorCyclingStill(chunk), end))
        } else if tags_equal(&tag, &ascii('T', 'I', 'M', 'E')) {
            let (chunk, end) = SubChunk::<Time>::decode(data, start, ())?;
            Ok((ImageClipSubChunk::Time(chunk), end))
        } else if tags_equal(&tag, &ascii('C', 'L', 'R', 'S')) {
            let (chunk, end) = SubChunk::<ColorSpace>::decode(data, start, ())?;
            Ok((ImageClipSubChunk::ColorSpaceRgb(chunk), end))
        } else if tags_equal(&tag, &ascii('C', 'L', 'R', 'A')) {
            let (chunk, end) = SubChunk::<ColorSpace>::decode(data, start, ())?;
            Ok((ImageClipSubChunk::ColorSpaceAlpha(chunk), end))
        } else if tags_equal(&tag, &ascii('F', 'I', 'L', 'T')) {
            let (chunk, end) = SubChunk::<Flags>::decode(data, start, ())?;
            Ok((ImageClipSubChunk::ImageFiltering(chunk), end))
        } else if tags_equal(&tag, &ascii('D', 'I', 'T', 'H')) {
            let (chunk, end) = SubChunk::<Flags>::decode(data, start, ())?;
            Ok((ImageClipSubChunk::ImageDithering(chunk), end))
        } else if tags_equal(&tag, &ascii('C', 'O', 'N', 'T')) {
            let (chunk, end) = SubChunk::<ValueEnvelope>::decode(data, start, ())?;
            Ok((ImageClipSubChunk::Contrast(chunk), end))
        } else if tags_equal(&tag, &ascii('B', 'R', 'I', 'T')) {
            let (chunk, end) = SubChunk::<ValueEnvelope>::decode(data, start, ())?;
            Ok((ImageClipSubChunk::Brightness(chunk), end))
        } else if tags_equal(&tag, &ascii('S', 'A', 'T', 'R')) {
            let (chunk, end) = SubChunk::<ValueEnvelope>::decode(data, start, ())?;
            Ok((ImageClipSubChunk::Saturation(chunk), end))
        } else if tags_equal(&tag, &ascii('H', 'U', 'E', '\0')) {
            let (chunk, end) = SubChunk::<ValueEnvelope>::decode(data, start, ())?;
            Ok((ImageClipSubChunk::Hue(chunk), end))
        } else if tags_equal(&tag, &ascii('G', 'A', 'M', 'M')) {
            let (chunk, end) = SubChunk::<ValueEnvelope>::decode(data, start, ())?;
            Ok((ImageClipSubChunk::GammaCorrection(chunk), end))
        } else if tags_equal(&tag, &ascii('N', 'E', 'G', 'A')) {
            let (chunk, end) = SubChunk::<EnableState>::decode(data, start, ())?;
            Ok((ImageClipSubChunk::Negative(chunk), end))
        } else if tags_equal(&tag, &ascii('I', 'F', 'L', 'T')) {
            let (chunk, end) = SubChunk::<PluginServerNameAndData>::decode(data, start, ())?;
            Ok((ImageClipSubChunk::PluginImageFilters(chunk), end))
        } else if tags_equal(&tag, &ascii('P', 'F', 'L', 'T')) {
            let (chunk, end) = SubChunk::<PluginServerNameAndData>::decode(data, start, ())?;
            Ok((ImageClipSubChunk::PluginPixelFilters(chunk), end))
        } else {
            Err(DecodeError::UnrecognizedTag { pos: pos as u64, tag })
        }
    }
}

impl Element<()> for ImageClipSubChunk {
    proof fn lemma_advances(s: Seq<u8>, pos: int, _args: ()) {
        match spec_tag(s, pos) {
            Err(_) => {},
            Ok((tag, start)) => {
                if same_tag(tag, ascii('S', 'T', 'I', 'L')) {
                    lemma_sub_chunk_extent::<StillImage>(s, start);
                } else if same_tag(tag, ascii('I', 'S', 'E', 'Q')) {
                    lemma_sub_chunk_extent::<ImageSequence>(s, start);
                } else if same_tag(tag, ascii('A', 'N', 'I', 'M')) {
                    lemma_sub_chunk_extent::<PluginAnimation>(s, start);
                } else if same_tag(tag, ascii('X', 'R', 'E', 'F')) {
                    lemma_sub_chunk_extent::<Reference>(s, start);
                } else if same_tag(tag, ascii('F', 'L', 'A', 'G')) {
                    lemma_sub_chunk_extent::<Flags>(s, start);
                } else if same_tag(tag, ascii('S', 'T', 'C', 'C')) {
                    lemma_sub_chunk_extent::<ColorCyclingStill>(s, start);
                } else if same_tag(tag, ascii('T', 'I', 'M', 'E')) {
                    lemma_sub_chunk_extent::<Time>(s, start);
                } else if same_tag(tag, ascii('C', 'L', 'R', 'S')) {
                    lemma_sub_chunk_extent::<ColorSpace>(s, start);
                } else if same_tag(tag, ascii('C', 'L', 'R', 'A')) {
                    lemma_sub_chunk_extent::<ColorSpace>(s, start);
                } else if same_tag(tag, ascii('F', 'I', 'L', 'T')) {
                    lemma_sub_chunk_extent::<Flags>(s, start);
                } else if same_tag(tag, ascii('D', 'I', 'T', 'H')) {
                    lemma_sub_chunk_extent::<Flags>(s, start);
                } else if same_tag(tag, ascii('C', 'O', 'N', 'T')) {
                    lemma_sub_chunk_extent::<ValueEnvelope>(s, start);
                } else if same_tag(tag, ascii('B', 'R', 'I', 'T')) {
                    lemma_sub_chunk_extent::<ValueEnvelope>(s, start);
                } else if same_tag(tag, ascii('S', 'A', 'T', 'R')) {
                    lemma_sub_chunk_extent::<ValueEnvelope>(s, start);
                } else if same_tag(tag, ascii('H', 'U', 'E', '\0')) {
                    lemma_sub_chunk_extent::<ValueEnvelope>(s, start);
                } else if same_tag(tag, ascii('G', 'A', 'M', 'M')) {
                    lemma_sub_chunk_extent::<ValueEnvelope>(s, start);
                } else if same_tag(tag, ascii('N', 'E', 'G', 'A')) {
                    lemma_sub_chunk_extent::<EnableState>(s, start);
                } else if same_tag(tag, ascii('I', 'F', 'L', 'T')) {
                    lemma_sub_chunk_extent::<PluginServerNameAndData>(s, start);
                } else if same_tag(tag, ascii('P', 'F', 'L', 'T')) {
                    lemma_sub_chunk_extent::<PluginServerNameAndData>(s, start);
                }
            },
        }
    }
}

/// An animation that a plug-in reads.
#[derive(Debug, PartialEq, Eq)]
pub struct PluginAnimation {
    pub file_name: Vec<u8>,
    /// The name of the plug-in.
    pub server_name: Vec<u8>,
    pub flags: u16,
    /// The bytes that follow the flags.
    pub data: Vec<u8>,
}

pub struct PluginAnimationView {
    pub file_name: Seq<u8>,
    pub server_name: Seq<u8>,
    pub flags: u16,
    pub data: Seq<u8>,
}

impl View for PluginAnimation {
    type V = PluginAnimationView;

    open spec fn view(&self) -> PluginAnimationView {
        PluginAnimationView {
            file_name: self.file_name@,
            server_name: self.server_name@,
            flags: self.flags,
            data: self.data@,
        }
    }
}

impl Decode<u32> for PluginAnimation {
    /// After the flags, as many bytes are taken as the two names and the
    /// flags took up.
    open spec fn spec_decode(s: Seq<u8>, pos: int, _length: u32) -> Parsed<PluginAnimationView> {
        match spec_aligned_null_string(s, pos) {
            Err(e) => Err(e),
            Ok((file_name, p1)) => match spec_aligned_null_string(s, p1) {
                Err(e) => Err(e),
                Ok((server_name, p2)) => match spec_u16(s, p2) {
                    Err(e) => Err(e),
                    Ok((flags, p3)) => match spec_bytes(s, p3, p3 - pos) {
                        Err(e) => Err(e),
                        Ok((data, end)) =>
                            Ok((PluginAnimationView { file_name, server_name, flags, data }, end)),
                    },
                },
            },
        }
    }

    fn decode(data: &[u8], pos: usize, _length: u32) -> (r: Decoded<PluginAnimation>) {
        let (file_name, p1) = read_aligned_null_string(data, pos)?;
        let (server_name, p2) = read_aligned_null_string(data, p1)?;
        let (flags, p3) = read_u16(data, p2)?;
        let (data, end) = read_bytes(data, p3, (p3 - pos) as u64)?;
        Ok((PluginAnimation { file_name, server_name, flags, data }, end))
    }
}

/// A colour space.
#[derive(Debug, PartialEq, Eq)]
pub struct ColorSpace {
    pub flags: u16,
    pub color_space: u16,
    /// The file that describes the colour space.
    pub file_name: Vec<u8>,
}

pub struct ColorSpaceView {
    pub flags: u16,
    pub color_space: u16,
    pub file_name: Seq<u8>,
}

impl View for ColorSpace {
    type V = ColorSpaceView;

    open spec fn view(&self) -> ColorSpaceView {
        ColorSpaceView {
            flags: self.flags,
            color_space: self.color_space,
            file_name: self.file_name@,
        }
    }
}

impl Decode<u32> for ColorSpace {
    open spec fn spec_decode(s: Seq<u8>, pos: int, _length: u32) -> Parsed<ColorSpaceView> {
        match spec_u16(s, pos) {
            Err(e) => Err(e),
            Ok((flags, p1)) => match spec_u16(s, p1) {
                Err(e) => Err(e),
                Ok((color_space, p2)) => match spec_aligned_null_string(s, p2) {
                    Err(e) => Err(e),
                    Ok((file_name, end)) =>
                        Ok((ColorSpaceView { flags, color_space, file_name }, end)),
                },
            },
        }
    }

    fn decode(data: &[u8], pos: usize, _length: u32) -> (r: Decoded<ColorSpace>) {
        let (flags, p1) = read_u16(data, pos)?;
        let (color_space, p2) = read_u16(data, p1)?;
        let (file_name, end) = read_aligned_null_string(data, p2)?;
        Ok((ColorSpace { flags, color_space, file_name }, end))
    }
}

/// A single image whose palette cycles.
#[derive(Debug, PartialEq, Eq)]
pub struct ColorCyclingStill {
    /// The first palette entry that cycles.
    pub lo: i16,
    /// The last palette entry that cycles.
    pub hi: i16,
    /// The file of the image.
    pub name: Vec<u8>,
}

pub struct ColorCyclingStillView {
    pub lo: i16,
    pub hi: i16,
    pub name: Seq<u8>,
}

impl View for ColorCyclingStill {
    type V = ColorCyclingStillView;

    open spec fn view(&self) -> ColorCyclingStillView {
        ColorCyclingStillView { lo: self.lo, hi: self.hi, name: self.name@ }
    }
}

impl Decode<u32> for ColorCyclingStill {
    open spec fn spec_decode(s: Seq<u8>, pos: int, _length: u32) -> Parsed<ColorCyclingStillView> {
        match spec_i16(s, pos) {
            Err(e) => Err(e),
            Ok((lo, p1)) => match spec_i16(s, p1) {
                Err(e) => Err(e),
                Ok((hi, p2)) => match spec_aligned_null_string(s, p2) {
                    Err(e) => Err(e),
                    Ok((name, end)) => Ok((ColorCyclingStillView { lo, hi, name }, end)),
                },
            },
        }
    }

    fn decode(data: &[u8], pos: usize, _length: u32) -> (r: Decoded<ColorCyclingStill>) {
        let (lo, p1) = read_i16(data, pos)?;
        let (hi, p2) = read_i16(data, p1)?;
        let (name, end) = read_aligned_null_string(data, p2)?;
        Ok((ColorCyclingStill { lo, hi, name }, end))
    }
}

/// The timing of a clip.
#[derive(Debug, Clone, Copy, PartialEq, Eq)]
pub struct Time {
    pub start_time: Float,
    pub duration: Float,
    pub frame_rate: Float,
}

impl View for Time {
    type V = Time;

    open spec fn view(&self) -> Time {
        *self
    }
}

impl Decode<u32> for Time {
    open spec fn spec_decode(s: Seq<u8>, pos: int, _length: u32) -> Parsed<Time> {
        match spec_float(s, pos) {
            Err(e) => Err(e),
            Ok((start_time, p1)) => match spec_float(s, p1) {
                Err(e) => Err(e),
                Ok((duration, p2)) => match spec_float(s, p2) {
                    Err(e) => Err(e),
                    Ok((frame_rate, end)) => Ok((Time { start_time, duration, frame_rate }, end)),
                },
            },
        }
    }

    fn decode(data: &[u8], pos: usize, _length: u32) -> (r: Decoded<Time>) {
        let (start_time, p1) = read_float(data, pos)?;
        let (duration, p2) = read_float(data, p1)?;
        let (frame_rate, end) = read_float(data, p2)?;
        Ok((Time { start_time, duration, frame_rate }, end))
    }
}

/// Thirty-two flag bits.
#[derive(Debug, Clone, Copy, PartialEq, Eq)]
pub struct Flags {
    pub flag: u32,
}

impl View for Flags {
    type V = Flags;

    open spec fn view(&self) -> Flags {
        *self
    }
}

impl Decode<u32> for Flags {
    open spec fn spec_decode(s: Seq<u8>, pos: int, _length: u32) -> Parsed<Flags> {
        match spec_u32(s, pos) {
            Err(e) => Err(e),
            Ok((flag, end)) => Ok((Flags { flag }, end)),
        }
    }

    fn decode(data: &[u8], pos: usize, _length: u32) -> (r: Decoded<Flags>) {
        let (flag, end) = read_u32(data, pos)?;
        Ok((Flags { flag }, end))
    }
}

/// A single image, named by its file.
#[derive(Debug, PartialEq, Eq)]
pub struct StillImage {
    pub name: Vec<u8>,
}

pub struct StillImageView {
    pub name: Seq<u8>,
}

impl View for StillImage {
    type V = StillImageView;

    open spec fn view(&self) -> StillImageView {
        StillImageView { name: self.name@ }
    }
}

impl Decode<u32> for StillImage {
    open spec fn spec_decode(s: Seq<u8>, pos: int, _length: u32) -> Parsed<StillImageView> {
        match spec_aligned_null_string(s, pos) {
            Err(e) => Err(e),
            Ok((name, end)) => Ok((StillImageView { name }, end)),
        }
    }

    fn decode(data: &[u8], pos: usize, _length: u32) -> (r: Decoded<StillImage>) {
        let (name, end) = read_aligned_null_string(data, pos)?;
        Ok((StillImage { name }, end))
    }
}

/// A numbered sequence of images. The file of a frame is named by the prefix,
/// the frame number in so many digits, and the suffix.
#[derive(Debug, PartialEq, Eq)]
pub struct ImageSequence {
    pub num_digits: u8,
    /// Bit 0 makes the sequence loop, bit 1 marks it as interlaced.
    pub flags: u8,
    /// What is added to the frame number.
    pub offset: i16,
    pub reserved: u16,
    /// The first frame.
    pub start: i16,
    /// The last frame.
    pub end: i16,
    pub prefix: Vec<u8>,
    pub suffix: Vec<u8>,
}

pub struct ImageSequenceView {
    pub num_digits: u8,
    pub flags: u8,
    pub offset: i16,
    pub reserved: u16,
    pub start: i16,
    pub end: i16,
    pub prefix: Seq<u8>,
    pub suffix: Seq<u8>,
}

impl View for ImageSequence {
    type V = ImageSequenceView;

    open spec fn view(&self) -> ImageSequenceView {
        ImageSequenceView {
            num_digits: self.num_digits,
            flags: self.flags,
            offset: self.offset,
            reserved: self.reserved,
            start: self.start,
            end: self.end,
            prefix: self.prefix@,
            suffix: self.suffix@,
        }
    }
}

impl Decode<u32> for ImageSequence {
    open spec fn spec_decode(s: Seq<u8>, pos: int, _length: u32) -> Parsed<ImageSequenceView> {
        match spec_u8(s, pos) {
            Err(e) => Err(e),
            Ok((num_digits, p1)) => match spec_u8(s, p1) {
                Err(e) => Err(e),
                Ok((flags, p2)) => match spec_i16(s, p2) {
                    Err(e) => Err(e),
                    Ok((offset, p3)) => match spec_u16(s, p3) {
                        Err(e) => Err(e),
                        Ok((reserved, p4)) => match spec_i16(s, p4) {
                            Err(e) => Err(e),
                            Ok((start, p5)) => match spec_i16(s, p5) {
                                Err(e) => Err(e),
                                Ok((end, p6)) => match spec_aligned_null_string(s, p6) {
                                    Err(e) => Err(e),
                                    Ok((prefix, p7)) => match spec_aligned_null_string(s, p7) {
                                        Err(e) => Err(e),
                                        Ok((suffix, after)) => Ok((ImageSequenceView {
                                            num_digits,
                                            flags,
                                            offset,
                                            reserved,
                                            start,
                                            end,
                                            prefix,
                                            suffix,
                                        }, after)),
                                    },
                                },
                            },
                        },
                    },
                },
            },
        }
    }

    fn decode(data: &[u8], pos: usize, _length: u32) -> (r: Decoded<ImageSequence>) {
        let (num_digits, p1) = read_u8(data, pos)?;
        let (flags, p2) = read_u8(data, p1)?;
        let (offset, p3) = read_i16(data, p2)?;
        let (reserved, p4) = read_u16(data, p3)?;
        let (start, p5) = read_i16(data, p4)?;
        let (end, p6) = read_i16(data, p5)?;
        let (prefix, p7) = read_aligned_null_string(data, p6)?;
        let (suffix, after) = read_aligned_null_string(data, p7)?;
        Ok((ImageSequence {
            num_digits,
            flags,
            offset,
            reserved,
            start,
            end,
            prefix,
            suffix,
        }, after))
    }
}

/// A copy of another clip, to which other sub-records may add.
#[derive(Debug, PartialEq, Eq)]
pub struct Reference {
    /// The index of the clip that is copied.
    pub index: u32,
    /// A name for the copy.
    pub string: Vec<u8>,
}

pub struct ReferenceView {
    pub index: u32,
    pub string: Seq<u8>,
}

impl View for Reference {
    type V = ReferenceView;

    open spec fn view(&self) -> ReferenceView {
        ReferenceView { index: self.index, string: self.string@ }
    }
}

impl Decode<u32> for Reference {
    open spec fn spec_decode(s: Seq<u8>, pos: int, _length: u32) -> Parsed<ReferenceView> {
        match spec_u32(s, pos) {
            Err(e) => Err(e),
            Ok((index, p1)) => match spec_aligned_null_string(s, p1) {
                Err(e) => Err(e),
                Ok((string, end)) => Ok((ReferenceView { index, string }, end)),
            },
        }
    }

    fn decode(data: &[u8], pos: usize, _length: u32) -> (r: Decoded<Reference>) {
        let (index, p1) = read_u32(data, pos)?;
        let (string, end) = read_aligned_null_string(data, p1)?;
        Ok((Reference { index, string }, end))
    }
}

} // verus!

use crate::decode::{
    ascii, code_tag, Decode, Decoded, Element, Float, Parsed, read_float, read_float_if,
    read_tag, read_u16, read_vec3_if, same_tag, spec_float, spec_float_if, spec_tag, spec_u16,
    spec_vec3_if, tags_equal, unrecognized_code,
};
use crate::error::DecodeError;
use crate::helpers::{lwo_null_string, spec_lwo_null_string};
use crate::iff::{lemma_sub_chunk_extent, SubChunk, SubChunkView};
use crate::lwo2::{spec_vx, spec_vx_if, vx, vx_if};
use crate::lwo2::sub_tags::{ValueEnvelope, VectorEnvelope, VxReference};
use crate::lwo2::sub_tags::blocks::{SurfaceBlocks, SurfaceBlocksView};
use vstd::prelude::*;

verus! {

/// One attribute of a surface.
#[derive(Debug, PartialEq, Eq)]
pub enum SurfaceParameterSubChunk {
    /// The colour of the surface.
    BaseColor(SubChunk<VectorEnvelope>),
    /// How much of the light the surface scatters.
    BaseShadingValueDiffuse(SubChunk<ValueEnvelope>),
    /// How much light the surface gives off.
    BaseShadingValueLuminosity(SubChunk<ValueEnvelope>),
    /// The strength of the highlights.
    BaseShadingValueSpecular(SubChunk<ValueEnvelope>),
    /// How much the surface mirrors.
    BaseShadingValueReflectivity(SubChunk<ValueEnvelope>),
    /// How much light passes the surface.
    BaseShadingValueTransparency(SubChunk<ValueEnvelope>),
    /// How much light from behind the surface scatters.
    BaseShadingValueTranslucency(SubChunk<ValueEnvelope>),
    /// The sharpness of the highlights.
    SpecularGlossiness(SubChunk<ValueEnvelope>),
    /// The sharpness of the boundary between lit and unlit.
    DiffuseSharpness(SubChunk<ValueEnvelope>),
    /// The strength of the bump mapping.
    BumpIntensity(SubChunk<ValueEnvelope>),
    /// Which sides of a polygon are drawn.
    PolygonSidedness(SubChunk<PolygonSidedness>),
    /// The largest angle between polygons that are shaded smoothly.
    MaxSmoothingAngle(SubChunk<MaxSmoothingAngle>),
    /// What the surface mirrors.
    ReflectionOptions(SubChunk<ReflectionOptions>),
    /// The clip that is mirrored.
    ReflectionMapImage(SubChunk<VxReference>),
    /// The heading at which the mirrored image has its seam.
    ReflectionMapSeamAngle(SubChunk<VectorEnvelope>),
    /// The blur of what is mirrored.
    ReflectionBlurring(SubChunk<ValueEnvelope>),
    /// The index of refraction.
    RefractiveIndex(SubChunk<ValueEnvelope>),
    /// What is seen through the surface.
    TransparencyOptions(SubChunk<ReflectionOptions>),
    /// The clip that is seen through the surface.
    RefractionMapImage(SubChunk<VxReference>),
    /// The blur of what is seen through the surface.
    RefractionBlurring(SubChunk<ValueEnvelope>),
    /// How much the highlights take the colour of the surface.
    ColorHighlights(SubChunk<ValueEnvelope>),
    /// How much the surface colours the light that passes it.
    ColorFilter(SubChunk<ValueEnvelope>),
    /// How much of the surface's colour is added to what lies behind it.
    AdditiveTransparency(SubChunk<ValueEnvelope>),
    /// The glow around the surface.
    GlowEffect(SubChunk<GlowEffect>),
    /// The outlines drawn on the surface.
    RenderOutlines(SubChunk<RenderOutlines>),
    /// What the surface writes to the alpha channel.
    AlphaMode(SubChunk<AlphaMode>),
    /// The vertex map that colours the surface.
    VertexColorMap(SubChunk<VertexColorMap>),
    /// A texture or shader laid on the surface.
    Blocks(SubChunk<SurfaceBlocks>),
}

pub enum SurfaceParameterSubChunkView {
    BaseColor(SubChunkView<VectorEnvelope>),
    BaseShadingValueDiffuse(SubChunkView<ValueEnvelope>),
    BaseShadingValueLuminosity(SubChunkView<ValueEnvelope>),
    BaseShadingValueSpecular(SubChunkView<ValueEnvelope>),
    BaseShadingValueReflectivity(SubChunkView<ValueEnvelope>),
    BaseShadingValueTransparency(SubChunkView<ValueEnvelope>),
    BaseShadingValueTranslucency(SubChunkView<ValueEnvelope>),
    SpecularGlossiness(SubChunkView<ValueEnvelope>),
    DiffuseSharpness(SubChunkView<ValueEnvelope>),
    BumpIntensity(SubChunkView<ValueEnvelope>),
    PolygonSidedness(SubChunkView<PolygonSidedness>),
    MaxSmoothingAngle(SubChunkView<MaxSmoothingAngle>),
    ReflectionOptions(SubChunkView<ReflectionOptions>),
    ReflectionMapImage(SubChunkView<VxReference>),
    ReflectionMapSeamAngle(SubChunkView<VectorEnvelope>),
    ReflectionBlurring(SubChunkView<ValueEnvelope>),
    RefractiveIndex(SubChunkView<ValueEnvelope>),
    TransparencyOptions(SubChunkView<ReflectionOptions>),
    RefractionMapImage(SubChunkView<VxReference>),
    RefractionBlurring(SubChunkView<ValueEnvelope>),
    ColorHighlights(SubChunkView<ValueEnvelope>),
    ColorFilter(SubChunkView<ValueEnvelope>),
    AdditiveTransparency(SubChunkView<ValueEnvelope>),
    GlowEffect(SubChunkView<GlowEffect>),
    RenderOutlines(SubChunkView<RenderOutlines>),
    AlphaMode(SubChunkView<AlphaMode>),
    VertexColorMap(SubChunkView<VertexColorMapView>),
    Blocks(SubChunkView<SurfaceBlocksView>),
}

impl View for SurfaceParameterSubChunk {
    type V = SurfaceParameterSubChunkView;

    open spec fn view(&self) -> SurfaceParameterSubChunkView {
        match self {
            SurfaceParameterSubChunk::BaseColor(chunk) =>
                SurfaceParameterSubChunkView::BaseColor(chunk@),
            SurfaceParameterSubChunk::BaseShadingValueDiffuse(chunk) =>
                SurfaceParameterSubChunkView::BaseShadingValueDiffuse(chunk@),
            SurfaceParameterSubChunk::BaseShadingValueLuminosity(chunk) =>
                SurfaceParameterSubChunkView::BaseShadingValueLuminosity(chunk@),
            SurfaceParameterSubChunk::BaseShadingValueSpecular(chunk) =>
                SurfaceParameterSubChunkView::BaseShadingValueSpecular(chunk@),
            SurfaceParameterSubChunk::BaseShadingValueReflectivity(chunk) =>
                SurfaceParameterSubChunkView::BaseShadingValueReflectivity(chunk@),
            SurfaceParameterSubChunk::BaseShadingValueTransparency(chunk) =>
                SurfaceParameterSubChunkView::BaseShadingValueTransparency(chunk@),
            SurfaceParameterSubChunk::BaseShadingValueTranslucency(chunk) =>
                SurfaceParameterSubChunkView::BaseShadingValueTranslucency(chunk@),
            SurfaceParameterSubChunk::SpecularGlossiness(chunk) =>
                SurfaceParameterSubChunkView::SpecularGlossiness(chunk@),
            SurfaceParameterSubChunk::DiffuseSharpness(chunk) =>
                SurfaceParameterSubChunkView::DiffuseSharpness(chunk@),
            SurfaceParameterSubChunk::BumpIntensity(chunk) =>
                SurfaceParameterSubChunkView::BumpIntensity(chunk@),
            SurfaceParameterSubChunk::PolygonSidedness(chunk) =>
                SurfaceParameterSubChunkView::PolygonSidedness(chunk@),
            SurfaceParameterSubChunk::MaxSmoothingAngle(chunk) =>
                SurfaceParameterSubChunkView::MaxSmoothingAngle(chunk@),
            SurfaceParameterSubChunk::ReflectionOptions(chunk) =>
                SurfaceParameterSubChunkView::ReflectionOptions(chunk@),
            SurfaceParameterSubChunk::ReflectionMapImage(chunk) =>
                SurfaceParameterSubChunkView::ReflectionMapImage(chunk@),
            SurfaceParameterSubChunk::ReflectionMapSeamAngle(chunk) =>
                SurfaceParameterSubChunkView::ReflectionMapSeamAngle(chunk@),
            SurfaceParameterSubChunk::ReflectionBlurring(chunk) =>
                SurfaceParameterSubChunkView::ReflectionBlurring(chunk@),
            SurfaceParameterSubChunk::RefractiveIndex(chunk) =>
                SurfaceParameterSubChunkView::RefractiveIndex(chunk@),
            SurfaceParameterSubChunk::TransparencyOptions(chunk) =>
                SurfaceParameterSubChunkView::TransparencyOptions(chunk@),
            SurfaceParameterSubChunk::RefractionMapImage(chunk) =>
                SurfaceParameterSubChunkView::RefractionMapImage(chunk@),
            SurfaceParameterSubChunk::RefractionBlurring(chunk) =>
                SurfaceParameterSubChunkView::RefractionBlurring(chunk@),
            SurfaceParameterSubChunk::ColorHighlights(chunk) =>
                SurfaceParameterSubChunkView::ColorHighlights(chunk@),
            SurfaceParameterSubChunk::ColorFilter(chunk) =>
                SurfaceParameterSubChunkView::ColorFilter(chunk@),
            SurfaceParameterSubChunk::AdditiveTransparency(chunk) =>
                SurfaceParameterSubChunkView::AdditiveTransparency(chunk@),
            SurfaceParameterSubChunk::GlowEffect(chunk) =>
                SurfaceParameterSubChunkView::GlowEffect(chunk@),
            SurfaceParameterSubChunk::RenderOutlines(chunk) =>
                SurfaceParameterSubChunkView::RenderOutlines(chunk@),
            SurfaceParameterSubChunk::AlphaMode(chunk) =>
                SurfaceParameterSubChunkView::AlphaMode(chunk@),
            SurfaceParameterSubChunk::VertexColorMap(chunk) =>
                SurfaceParameterSubChunkView::VertexColorMap(chunk@),
            SurfaceParameterSubChunk::Blocks(chunk) => SurfaceParameterSubChunkView::Blocks(chunk@),
        }
    }
}

impl Decode<()> for SurfaceParameterSubChunk {
    open spec fn spec_decode(s: Seq<u8>, pos: int, _args: ()) -> Parsed<
        SurfaceParameterSubChunkView,
    > {
        match spec_tag(s, pos) {
            Err(e) => Err(e),
            Ok((tag, start)) => if same_tag(tag, ascii('C', 'O', 'L', 'R')) {
                match SubChunk::<VectorEnvelope>::spec_decode(s, start, ()) {
                    Err(e) => Err(e),
                    Ok((chunk, end)) => Ok((SurfaceParameterSubChunkView::BaseColor(chunk), end)),
                }
            } else if same_tag(tag, ascii('D', 'I', 'F', 'F')) {
                match SubChunk::<ValueEnvelope>::spec_decode(s, start, ()) {
                    Err(e) => Err(e),
                    Ok((chunk, end)) =>
                        Ok((SurfaceParameterSubChunkView::BaseShadingValueDiffuse(chunk), end)),
                }
            } else if same_tag(tag, ascii('L', 'U', 'M', 'I')) {
                match SubChunk::<ValueEnvelope>::spec_decode(s, start, ()) {
                    Err(e) => Err(e),
                    Ok((chunk, end)) =>
                        Ok((SurfaceParameterSubChunkView::BaseShadingValueLuminosity(chunk), end)),
                }
            } else if same_tag(tag, ascii('S', 'P', 'E', 'C')) {
                match SubChunk::<ValueEnvelope>::spec_decode(s, start, ()) {
                    Err(e) => Err(e),
                    Ok((chunk, end)) =>
                        Ok((SurfaceParameterSubChunkView::BaseShadingValueSpecular(chunk), end)),
                }
            } else if same_tag(tag, ascii('R', 'E', 'F', 'L')) {
                match SubChunk::<ValueEnvelope>::spec_decode(s, start, ()) {
                    Err(e) => Err(e),
                    Ok((chunk, end)) =>
                        Ok((SurfaceParameterSubChunkView::BaseShadingValueReflectivity(chunk), end)),
                }
            } else if same_tag(tag, ascii('T', 'R', 'A', 'N')) {
                match SubChunk::<ValueEnvelope>::spec_decode(s, start, ()) {
                    Err(e) => Err(e),
                    Ok((chunk, end)) =>
                        Ok((SurfaceParameterSubChunkView::BaseShadingValueTransparency(chunk), end)),
                }
            } else if same_tag(tag, ascii('T', 'R', 'N', 'L')) {
                match SubChunk::<ValueEnvelope>::spec_decode(s, start, ()) {
                    Err(e) => Err(e),
                    Ok((chunk, end)) =>
                        Ok((SurfaceParameterSubChunkView::BaseShadingValueTranslucency(chunk), end)),
                }
            } else if same_tag(tag, ascii('G', 'L', 'O', 'S')) {
                match SubChunk::<ValueEnvelope>::spec_decode(s, start, ()) {
                    Err(e) => Err(e),
                    Ok((chunk, end)) =>
                        Ok((SurfaceParameterSubChunkView::SpecularGlossiness(chunk), end)),
                }
            } else if same_tag(tag, ascii('S', 'H', 'R', 'P')) {
                match SubChunk::<ValueEnvelope>::spec_decode(s, start, ()) {
                    Err(e) => Err(e),
                    Ok((chunk, end)) =>
                        Ok((SurfaceParameterSubChunkView::DiffuseSharpness(chunk), end)),
                }
            } else if same_tag(tag, ascii('B', 'U', 'M', 'P')) {
                match SubChunk::<ValueEnvelope>::spec_decode(s, start, ()) {
                    Err(e) => Err(e),
                    Ok((chunk, end)) =>
                        Ok((SurfaceParameterSubChunkView::BumpIntensity(chunk), end)),
                }
            } else if same_tag(tag, ascii('S', 'I', 'D', 'E')) {
                match SubChunk::<PolygonSidedness>::spec_decode(s, start, ()) {
                    Err(e) => Err(e),
                    Ok((chunk, end)) =>
                        Ok((SurfaceParameterSubChunkView::PolygonSidedness(chunk), end)),
                }
            } else if same_tag(tag, ascii('S', 'M', 'A', 'N')) {
                match SubChunk::<MaxSmoothingAngle>::spec_decode(s, start, ()) {
                    Err(e) => Err(e),
                    Ok((chunk, end)) =>
                        Ok((SurfaceParameterSubChunkView::MaxSmoothingAngle(chunk), end)),
                }
            } else if same_tag(tag, ascii('R', 'F', 'O', 'P')) {
                match SubChunk::<ReflectionOptions>::spec_decode(s, start, ()) {
                    Err(e) => Err(e),
                    Ok((chunk, end)) =>
                        Ok((SurfaceParameterSubChunkView::ReflectionOptions(chunk), end)),
                }
            } else if same_tag(tag, ascii('R', 'I', 'M', 'G')) {
                match SubChunk::<VxReference>::spec_decode(s, start, ()) {
                    Err(e) => Err(e),
                    Ok((chunk, end)) =>
                        Ok((SurfaceParameterSubChunkView::ReflectionMapImage(chunk), end)),
                }
            } else if same_tag(tag, ascii('R', 'S', 'A', 'N')) {
                match SubChunk::<VectorEnvelope>::spec_decode(s, start, ()) {
                    Err(e) => Err(e),
                    Ok((chunk, end)) =>
                        Ok((SurfaceParameterSubChunkView::ReflectionMapSeamAngle(chunk), end)),
                }
            } else if same_tag(tag, ascii('R', 'B', 'L', 'R')) {
                match SubChunk::<ValueEnvelope>::spec_decode(s, start, ()) {
                    Err(e) => Err(e),
                    Ok((chunk, end)) =>
                        Ok((SurfaceParameterSubChunkView::ReflectionBlurring(chunk), end)),
                }
            } else if same_tag(tag, ascii('R', 'I', 'N', 'D')) {
                match SubChunk::<ValueEnvelope>::spec_decode(s, start, ()) {
                    Err(e) => Err(e),
                    Ok((chunk, end)) =>
                        Ok((SurfaceParameterSubChunkView::RefractiveIndex(chunk), end)),
                }
            } else if same_tag(tag, ascii('T', 'R', 'O', 'P')) {
                match SubChunk::<ReflectionOptions>::spec_decode(s, start, ()) {
                    Err(e) => Err(e),
                    Ok((chunk, end)) =>
                        Ok((SurfaceParameterSubChunkView::TransparencyOptions(chunk), end)),
                }
            } else if same_tag(tag, ascii('T', 'I', 'M', 'G')) {
                match SubChunk::<VxReference>::spec_decode(s, start, ()) {
                    Err(e) => Err(e),
                    Ok((chunk, end)) =>
                        Ok((SurfaceParameterSubChunkView::RefractionMapImage(chunk), end)),
                }
            } else if same_tag(tag, ascii('T', 'B', 'L', 'R')) {
                match SubChunk::<ValueEnvelope>::spec_decode(s, start, ()) {
                    Err(e) => Err(e),
                    Ok((chunk, end)) =>
                        Ok((SurfaceParameterSubChunkView::RefractionBlurring(chunk), end)),
                }
            } else if same_tag(tag, ascii('C', 'L', 'R', 'H')) {
                match SubChunk::<ValueEnvelope>::spec_decode(s, start, ()) {
                    Err(e) => Err(e),
                    Ok((chunk, end)) =>
                        Ok((SurfaceParameterSubChunkView::ColorHighlights(chunk), end)),
                }
            } else if same_tag(tag, ascii('C', 'L', 'R', 'F')) {
                match SubChunk::<ValueEnvelope>::spec_decode(s, start, ()) {
                    Err(e) => Err(e),
                    Ok((chunk, end)) => Ok((SurfaceParameterSubChunkView::ColorFilter(chunk), end)),
                }
            } else if same_tag(tag, ascii('A', 'D', 'T', 'R')) {
                match SubChunk::<ValueEnvelope>::spec_decode(s, start, ()) {
                    Err(e) => Err(e),
                    Ok((chunk, end)) =>
                        Ok((SurfaceParameterSubChunkView::AdditiveTransparency(chunk), end)),
                }
            } else if same_tag(tag, ascii('G', 'L', 'O', 'W')) {
                match SubChunk::<GlowEffect>::spec_decode(s, start, ()) {
                    Err(e) => Err(e),
                    Ok((chunk, end)) => Ok((SurfaceParameterSubChunkView::GlowEffect(chunk), end)),
                }
            } else if same_tag(tag, ascii('L', 'I', 'N', 'E')) {
                match SubChunk::<RenderOutlines>::spec_decode(s, start, ()) {
                    Err(e) => Err(e),
                    Ok((chunk, end)) =>
                        Ok((SurfaceParameterSubChunkView::RenderOutlines(chunk), end)),
                }
            } else if same_tag(tag, ascii('A', 'L', 'P', 'H')) {
                match SubChunk::<AlphaMode>::spec_decode(s, start, ()) {
                    Err(e) => Err(e),
                    Ok((chunk, end)) => Ok((SurfaceParameterSubChunkView::AlphaMode(chunk), end)),
                }
            } else if same_tag(tag, ascii('V', 'C', 'O', 'L')) {
                match SubChunk::<VertexColorMap>::spec_decode(s, start, ()) {
                    Err(e) => Err(e),
                    Ok((chunk, end)) =>
                        Ok((SurfaceParameterSubChunkView::VertexColorMap(chunk), end)),
                }
            } else if same_tag(tag, ascii('B', 'L', 'O', 'K')) {
                match SubChunk::<SurfaceBlocks>::spec_decode(s, start, ()) {
                    Err(e) => Err(e),
                    Ok((chunk, end)) => Ok((SurfaceParameterSubChunkView::Blocks(chunk), end)),
                }
            } else {
                Err(DecodeError::UnrecognizedTag { pos: pos as u64, tag })
            },
        }
    }

    fn decode(data: &[u8], pos: usize, _args: ()) -> (r: Decoded<SurfaceParameterSubChunk>) {
        let (tag, start) = read_tag(data, pos)?;
        if tags_equal(&tag, &ascii('C', 'O', 'L', 'R')) {
            let (chunk, end) = SubChunk::<VectorEnvelope>::decode(data, start, ())?;
            Ok((SurfaceParameterSubChunk::BaseColor(chunk), end))
        } else if tags_equal(&tag, &ascii('D', 'I', 'F', 'F')) {
            let (chunk, end) = SubChunk::<ValueEnvelope>::decode(data, start, ())?;
            Ok((SurfaceParameterSubChunk::BaseShadingValueDiffuse(chunk), end))
        } else if tags_equal(&tag, &ascii('L', 'U', 'M', 'I')) {
            let (chunk, end) = SubChunk::<ValueEnvelope>::decode(data, start, ())?;
            Ok((SurfaceParameterSubChunk::BaseShadingValueLuminosity(chunk), end))
        } else if tags_equal(&tag, &ascii('S', 'P', 'E', 'C')) {
            let (chunk, end) = SubChunk::<ValueEnvelope>::decode(data, start, ())?;
            Ok((SurfaceParameterSubChunk::BaseShadingValueSpecular(chunk), end))
        } else if tags_equal(&tag, &ascii('R', 'E', 'F', 'L')) {
            let (chunk, end) = SubChunk::<ValueEnvelope>::decode(data, start, ())?;
            Ok((SurfaceParameterSubChunk::BaseShadingValueReflectivity(chunk), end))
        } else if tags_equal(&tag, &ascii('T', 'R', 'A', 'N')) {
            let (chunk, end) = SubChunk::<ValueEnvelope>::decode(data, start, ())?;
            Ok((SurfaceParameterSubChunk::BaseShadingValueTransparency(chunk), end))
        } else if tags_equal(&tag, &ascii('T', 'R', 'N', 'L')) {
            let (chunk, end) = SubChunk::<ValueEnvelope>::decode(data, start, ())?;
            Ok((SurfaceParameterSubChunk::BaseShadingValueTranslucency(chunk), end))
        } else if tags_equal(&tag, &ascii('G', 'L', 'O', 'S')) {
            let (chunk, end) = SubChunk::<ValueEnvelope>::decode(data, start, ())?;
            Ok((SurfaceParameterSubChunk::SpecularGlossiness(chunk), end))
        } else if tags_equal(&tag, &ascii('S', 'H', 'R', 'P')) {
            let (chunk, end) = SubChunk::<ValueEnvelope>::decode(data, start, ())?;
            Ok((SurfaceParameterSubChunk::DiffuseSharpness(chunk), end))
        } else if tags_equal(&tag, &ascii('B', 'U', 'M', 'P')) {
            let (chunk, end) = SubChunk::<ValueEnvelope>::decode(data, start, ())?;
            Ok((SurfaceParameterSubChunk::BumpIntensity(chunk), end))
        } else if tags_equal(&tag, &ascii('S', 'I', 'D', 'E')) {
            let (chunk, end) = SubChunk::<PolygonSidedness>::decode(data, start, ())?;
            Ok((SurfaceParameterSubChunk::PolygonSidedness(chunk), end))
        } else if tags_equal(&tag, &ascii('S', 'M', 'A', 'N')) {
            let (chunk, end) = SubChunk::<MaxSmoothingAngle>::decode(data, start, ())?;
            Ok((SurfaceParameterSubChunk::MaxSmoothingAngle(chunk), end))
        } else if tags_equal(&tag, &ascii('R', 'F', 'O', 'P')) {
            let (chunk, end) = SubChunk::<ReflectionOptions>::decode(data, start, ())?;
            Ok((SurfaceParameterSubChunk::ReflectionOptions(chunk), end))
        } else if tags_equal(&tag, &ascii('R', 'I', 'M', 'G')) {
            let (chunk, end) = SubChunk::<VxReference>::decode(data, start, ())?;
            Ok((SurfaceParameterSubChunk::ReflectionMapImage(chunk), end))
        } else if tags_equal(&tag, &ascii('R', 'S', 'A', 'N')) {
            let (chunk, end) = SubChunk::<VectorEnvelope>::decode(data, start, ())?;
            Ok((SurfaceParameterSubChunk::ReflectionMapSeamAngle(chunk), end))
        } else if tags_equal(&tag, &ascii('R', 'B', 'L', 'R')) {
            let (chunk, end) = SubChunk::<ValueEnvelope>::decode(data, start, ())?;
            Ok((SurfaceParameterSubChunk::ReflectionBlurring(chunk), end))
        } else if tags_equal(&tag, &ascii('R', 'I', 'N', 'D')) {
            let (chunk, end) = SubChunk::<ValueEnvelope>::decode(data, start, ())?;
            Ok((SurfaceParameterSubChunk::RefractiveIndex(chunk), end))
        } else if tags_equal(&tag, &ascii('T', 'R', 'O', 'P')) {
            let (chunk, end) = SubChunk::<ReflectionOptions>::decode(data, start, ())?;
            Ok((SurfaceParameterSubChunk::TransparencyOptions(chunk), end))
        } else if tags_equal(&tag, &ascii('T', 'I', 'M', 'G')) {
            let (chunk, end) = SubChunk::<VxReference>::decode(data, start, ())?;
            Ok((SurfaceParameterSubChunk::RefractionMapImage(chunk), end))
        } else if tags_equal(&tag, &ascii('T', 'B', 'L', 'R')) {
            let (chunk, end) = SubChunk::<ValueEnvelope>::decode(data, start, ())?;
            Ok((SurfaceParameterSubChunk::RefractionBlurring(chunk), end))
        } else if tags_equal(&tag, &ascii('C', 'L', 'R', 'H')) {
            let (chunk, end) = SubChunk::<ValueEnvelope>::decode(data, start, ())?;
            Ok((SurfaceParameterSubChunk::ColorHighlights(chunk), end))
        } else if tags_equal(&tag, &ascii('C', 'L', 'R', 'F')) {
            let (chunk, end) = SubChunk::<ValueEnvelope>::decode(data, start, ())?;
            Ok((SurfaceParameterSubChunk::ColorFilter(chunk), end))
        } else if tags_equal(&tag, &ascii('A', 'D', 'T', 'R')) {
            let (chunk, end) = SubChunk::<ValueEnvelope>::decode(data, start, ())?;
            Ok((SurfaceParameterSubChunk::AdditiveTransparency(chunk), end))
        } else if tags_equal(&tag, &ascii('G', 'L', 'O', 'W')) {
            let (chunk, end) = SubChunk::<GlowEffect>::decode(data, start, ())?;
            Ok((SurfaceParameterSubChunk::GlowEffect(chunk), end))
        } else if tags_equal(&tag, &ascii('L', 'I', 'N', 'E')) {
            let (chunk, end) = SubChunk::<RenderOutlines>::decode(data, start, ())?;
            Ok((SurfaceParameterSubChunk::RenderOutlines(chunk), end))
        } else if tags_equal(&tag, &ascii('A', 'L', 'P', 'H')) {
            let (chunk, end) = SubChunk::<AlphaMode>::decode(data, start, ())?;
            Ok((SurfaceParameterSubChunk::AlphaMode(chunk), end))
        } else if tags_equal(&tag, &ascii('V', 'C', 'O', 'L')) {
            let (chunk, end) = SubChunk::<VertexColorMap>::decode(data, start, ())?;
            Ok((SurfaceParameterSubChunk::VertexColorMap(chunk), end))
        } else if tags_equal(&tag, &ascii('B', 'L', 'O', 'K')) {
            let (chunk, end) = SubChunk::<SurfaceBlocks>::decode(data, start, ())?;
            Ok((SurfaceParameterSubChunk::Blocks(chunk), end))
        } else {
            Err(DecodeError::UnrecognizedTag { pos: pos as u64, tag })
        }
    }
}

impl Element<()> for SurfaceParameterSubChunk {
    proof fn lemma_advances(s: Seq<u8>, pos: int, _args: ()) {
        match spec_tag(s, pos) {
            Err(_) => {},
            Ok((tag, start)) => {
                if same_tag(tag, ascii('C', 'O', 'L', 'R')) {
                    lemma_sub_chunk_extent::<VectorEnvelope>(s, start);
                } else if same_tag(tag, ascii('D', 'I', 'F', 'F')) {
                    lemma_sub_chunk_extent::<ValueEnvelope>(s, start);
                } else if same_tag(tag, ascii('L', 'U', 'M', 'I')) {
                    lemma_sub_chunk_extent::<ValueEnvelope>(s, start);
                } else if same_tag(tag, ascii('S', 'P', 'E', 'C')) {
                    lemma_sub_chunk_extent::<ValueEnvelope>(s, start);
                } else if same_tag(tag, ascii('R', 'E', 'F', 'L')) {
                    lemma_sub_chunk_extent::<ValueEnvelope>(s, start);
                } else if same_tag(tag, ascii('T', 'R', 'A', 'N')) {
                    lemma_sub_chunk_extent::<ValueEnvelope>(s, start);
                } else if same_tag(tag, ascii('T', 'R', 'N', 'L')) {
                    lemma_sub_chunk_extent::<ValueEnvelope>(s, start);
                } else if same_tag(tag, ascii('G', 'L', 'O', 'S')) {
                    lemma_sub_chunk_extent::<ValueEnvelope>(s, start);
                } else if same_tag(tag, ascii('S', 'H', 'R', 'P')) {
                    lemma_sub_chunk_extent::<ValueEnvelope>(s, start);
                } else if same_tag(tag, ascii('B', 'U', 'M', 'P')) {
                    lemma_sub_chunk_extent::<ValueEnvelope>(s, start);
                } else if same_tag(tag, ascii('S', 'I', 'D', 'E')) {
                    lemma_sub_chunk_extent::<PolygonSidedness>(s, start);
                } else if same_tag(tag, ascii('S', 'M', 'A', 'N')) {
                    lemma_sub_chunk_extent::<MaxSmoothingAngle>(s, start);
                } else if same_tag(tag, ascii('R', 'F', 'O', 'P')) {
                    lemma_sub_chunk_extent::<ReflectionOptions>(s, start);
                } else if same_tag(tag, ascii('R', 'I', 'M', 'G')) {
                    lemma_sub_chunk_extent::<VxReference>(s, start);
                } else if same_tag(tag, ascii('R', 'S', 'A', 'N')) {
                    lemma_sub_chunk_extent::<VectorEnvelope>(s, start);
                } else if same_tag(tag, ascii('R', 'B', 'L', 'R')) {
                    lemma_sub_chunk_extent::<ValueEnvelope>(s, start);
                } else if same_tag(tag, ascii('R', 'I', 'N', 'D')) {
                    lemma_sub_chunk_extent::<ValueEnvelope>(s, start);
                } else if same_tag(tag, ascii('T', 'R', 'O', 'P')) {
                    lemma_sub_chunk_extent::<ReflectionOptions>(s, start);
                } else if same_tag(tag, ascii('T', 'I', 'M', 'G')) {
                    lemma_sub_chunk_extent::<VxReference>(s, start);
                } else if same_tag(tag, ascii('T', 'B', 'L', 'R')) {
                    lemma_sub_chunk_extent::<ValueEnvelope>(s, start);
                } else if same_tag(tag, ascii('C', 'L', 'R', 'H')) {
                    lemma_sub_chunk_extent::<ValueEnvelope>(s, start);
                } else if same_tag(tag, ascii('C', 'L', 'R', 'F')) {
                    lemma_sub_chunk_extent::<ValueEnvelope>(s, start);
                } else if same_tag(tag, ascii('A', 'D', 'T', 'R')) {
                    lemma_sub_chunk_extent::<ValueEnvelope>(s, start);
                } else if same_tag(tag, ascii('G', 'L', 'O', 'W')) {
                    lemma_sub_chunk_extent::<GlowEffect>(s, start);
                } else if same_tag(tag, ascii('L', 'I', 'N', 'E')) {
                    lemma_sub_chunk_extent::<RenderOutlines>(s, start);
                } else if same_tag(tag, ascii('A', 'L', 'P', 'H')) {
                    lemma_sub_chunk_extent::<AlphaMode>(s, start);
                } else if same_tag(tag, ascii('V', 'C', 'O', 'L')) {
                    lemma_sub_chunk_extent::<VertexColorMap>(s, start);
                } else if same_tag(tag, ascii('B', 'L', 'O', 'K')) {
                    lemma_sub_chunk_extent::<SurfaceBlocks>(s, start);
                }
            },
        }
    }
}

/// The colouring of a surface by a vertex map.
#[derive(Debug, PartialEq, Eq)]
pub struct VertexColorMap {
    pub intensity: Float,
    /// The index of the envelope, zero where there is none.
    pub envelope: u32,
    /// The kind of the vertex map, `RGB ` or `RGBA`.
    pub vmap_type: [u8; 4],
    /// The name of the vertex map.
    pub name: String,
}

pub struct VertexColorMapView {
    pub intensity: Float,
    pub envelope: u32,
    pub vmap_type: [u8; 4],
    pub name: Seq<char>,
}

impl View for VertexColorMap {
    type V = VertexColorMapView;

    open spec fn view(&self) -> VertexColorMapView {
        VertexColorMapView {
            intensity: self.intensity,
            envelope: self.envelope,
            vmap_type: self.vmap_type,
            name: self.name@,
        }
    }
}

impl Decode<u32> for VertexColorMap {
    open spec fn spec_decode(s: Seq<u8>, pos: int, _length: u32) -> Parsed<VertexColorMapView> {
        match spec_float(s, pos) {
            Err(e) => Err(e),
            Ok((intensity, p1)) => match spec_vx(s, p1) {
                Err(e) => Err(e),
                Ok((envelope, p2)) => match spec_tag(s, p2) {
                    Err(e) => Err(e),
                    Ok((vmap_type, p3)) => match spec_lwo_null_string(s, p3) {
                        Err(e) => Err(e),
                        Ok((name, end)) =>
                            Ok((VertexColorMapView { intensity, envelope, vmap_type, name }, end)),
                    },
                },
            },
        }
    }

    fn decode(data: &[u8], pos: usize, _length: u32) -> (r: Decoded<VertexColorMap>) {
        let (intensity, p1) = read_float(data, pos)?;
        let (envelope, p2) = vx(data, p1)?;
        let (vmap_type, p3) = read_tag(data, p2)?;
        let (name, end) = lwo_null_string(data, p3)?;
        Ok((VertexColorMap { intensity, envelope, vmap_type, name }, end))
    }
}

/// What a surface writes to the alpha channel.
#[derive(Debug, Clone, Copy, PartialEq, Eq)]
pub struct AlphaMode {
    pub mode: AlphaModeMode,
    /// The constant, where the mode asks for one.
    pub value: Float,
}

impl View for AlphaMode {
    type V = AlphaMode;

    open spec fn view(&self) -> AlphaMode {
        *self
    }
}

impl Decode<u32> for AlphaMode {
    open spec fn spec_decode(s: Seq<u8>, pos: int, _length: u32) -> Parsed<AlphaMode> {
        match AlphaModeMode::spec_decode(s, pos, ()) {
            Err(e) => Err(e),
            Ok((mode, p1)) => match spec_float(s, p1) {
                Err(e) => Err(e),
                Ok((value, end)) => Ok((AlphaMode { mode, value }, end)),
            },
        }
    }

    fn decode(data: &[u8], pos: usize, _length: u32) -> (r: Decoded<AlphaMode>) {
        let (mode, p1) = AlphaModeMode::decode(data, pos, ())?;
        let (value, end) = read_float(data, p1)?;
        Ok((AlphaMode { mode, value }, end))
    }
}

/// The source of a surface's alpha.
#[derive(Debug, Clone, Copy, PartialEq, Eq)]
pub enum AlphaModeMode {
    UnaffectedBySurface,
    ConstantValue,
    SurfaceOpacity,
    ShadowDensity,
}

impl View for AlphaModeMode {
    type V = AlphaModeMode;

    open spec fn view(&self) -> AlphaModeMode {
        *self
    }
}

impl AlphaModeMode {
    /// The variant that the number `code` stands for, if there is one.
    pub open spec fn spec_from_code(code: u16) -> Option<AlphaModeMode> {
        if code == 0 {
            Some(AlphaModeMode::UnaffectedBySurface)
        } else if code == 1 {
            Some(AlphaModeMode::ConstantValue)
        } else if code == 2 {
            Some(AlphaModeMode::SurfaceOpacity)
        } else if code == 3 {
            Some(AlphaModeMode::ShadowDensity)
        } else {
            None
        }
    }

    /// Looks up the variant that the number `code` stands for.
    pub fn from_code(code: u16) -> (r: Option<AlphaModeMode>)
        ensures
            r == Self::spec_from_code(code),
    {
        if code == 0 {
            Some(AlphaModeMode::UnaffectedBySurface)
        } else if code == 1 {
            Some(AlphaModeMode::ConstantValue)
        } else if code == 2 {
            Some(AlphaModeMode::SurfaceOpacity)
        } else if code == 3 {
            Some(AlphaModeMode::ShadowDensity)
        } else {
            None
        }
    }
}

impl Decode<()> for AlphaModeMode {
    open spec fn spec_decode(s: Seq<u8>, pos: int, _args: ()) -> Parsed<AlphaModeMode> {
        match spec_u16(s, pos) {
            Err(e) => Err(e),
            Ok((code, end)) => match AlphaModeMode::spec_from_code(code) {
                Some(v) => Ok((v, end)),
                None => Err(unrecognized_code(pos, code as u32)),
            },
        }
    }

    fn decode(data: &[u8], pos: usize, _args: ()) -> (r: Decoded<AlphaModeMode>) {
        let (code, end) = read_u16(data, pos)?;
        match AlphaModeMode::from_code(code) {
            Some(v) => Ok((v, end)),
            None =>
                Err(DecodeError::UnrecognizedTag { pos: pos as u64, tag: code_tag(code as u32) }),
        }
    }
}

impl Element<()> for AlphaModeMode {
    proof fn lemma_advances(s: Seq<u8>, pos: int, _args: ()) {
    }
}

/// The outlines drawn on a surface. A payload of two bytes holds the flags
/// alone; one of up to eight bytes holds the size as well; a longer one the
/// colour too. What is not stored is zero.
#[derive(Debug, Clone, Copy, PartialEq, Eq)]
pub struct RenderOutlines {
    pub flags: u16,
    pub size: Float,
    pub size_envelope: u32,
    pub color: [Float; 3],
    pub color_envelope: u32,
}

impl View for RenderOutlines {
    type V = RenderOutlines;

    open spec fn view(&self) -> RenderOutlines {
        *self
    }
}

impl Decode<u32> for RenderOutlines {
    open spec fn spec_decode(s: Seq<u8>, pos: int, length: u32) -> Parsed<RenderOutlines> {
        match spec_u16(s, pos) {
            Err(e) => Err(e),
            Ok((flags, p1)) => match spec_float_if(length > 2, s, p1) {
                Err(e) => Err(e),
                Ok((size, p2)) => match spec_vx_if(length > 2, s, p2) {
                    Err(e) => Err(e),
                    Ok((size_envelope, p3)) => match spec_vec3_if(length > 8, s, p3) {
                        Err(e) => Err(e),
                        Ok((color, p4)) => match spec_vx_if(length > 8, s, p4) {
                            Err(e) => Err(e),
                            Ok((color_envelope, end)) => Ok((RenderOutlines {
                                flags,
                                size,
                                size_envelope,
                                color,
                                color_envelope,
                            }, end)),
                        },
                    },
                },
            },
        }
    }

    fn decode(data: &[u8], pos: usize, length: u32) -> (r: Decoded<RenderOutlines>) {
        let (flags, p1) = read_u16(data, pos)?;
        let (size, p2) = read_float_if(length > 2, data, p1)?;
        let (size_envelope, p3) = vx_if(length > 2, data, p2)?;
        let (color, p4) = read_vec3_if(length > 8, data, p3)?;
        let (color_envelope, end) = vx_if(length > 8, data, p4)?;
        Ok((RenderOutlines { flags, size, size_envelope, color, color_envelope }, end))
    }
}

/// The glow around a surface. A payload of more than six bytes holds the size
/// of the glow too; where it is not stored it is zero.
#[derive(Debug, Clone, Copy, PartialEq, Eq)]
pub struct GlowEffect {
    pub kind: GlowType,
    pub intensity: Float,
    pub intensity_envelope: u32,
    pub size: Float,
    pub size_envelope: u32,
}

impl View for GlowEffect {
    type V = GlowEffect;

    open spec fn view(&self) -> GlowEffect {
        *self
    }
}

impl Decode<u32> for GlowEffect {
    open spec fn spec_decode(s: Seq<u8>, pos: int, length: u32) -> Parsed<GlowEffect> {
        match GlowType::spec_decode(s, pos, ()) {
            Err(e) => Err(e),
            Ok((kind, p1)) => match spec_float(s, p1) {
                Err(e) => Err(e),
                Ok((intensity, p2)) => match spec_vx(s, p2) {
                    Err(e) => Err(e),
                    Ok((intensity_envelope, p3)) => match spec_float_if(length > 6, s, p3) {
                        Err(e) => Err(e),
                        Ok((size, p4)) => match spec_vx_if(length > 6, s, p4) {
                            Err(e) => Err(e),
                            Ok((size_envelope, end)) => Ok((GlowEffect {
                                kind,
                                intensity,
                                intensity_envelope,
                                size,
                                size_envelope,
                            }, end)),
                        },
                    },
                },
            },
        }
    }

    fn decode(data: &[u8], pos: usize, length: u32) -> (r: Decoded<GlowEffect>) {
        let (kind, p1) = GlowType::decode(data, pos, ())?;
        let (intensity, p2) = read_float(data, p1)?;
        let (intensity_envelope, p3) = vx(data, p2)?;
        let (size, p4) = read_float_if(length > 6, data, p3)?;
        let (size_envelope, end) = vx_if(length > 6, data, p4)?;
        Ok((GlowEffect { kind, intensity, intensity_envelope, size, size_envelope }, end))
    }
}

/// How a glow is computed.
#[derive(Debug, Clone, Copy, PartialEq, Eq)]
pub enum GlowType {
    HastingsGlow,
    ImageConvolution,
}

impl View for GlowType {
    type V = GlowType;

    open spec fn view(&self) -> GlowType {
        *self
    }
}

impl GlowType {
    /// The variant that the number `code` stands for, if there is one.
    pub open spec fn spec_from_code(code: u16) -> Option<GlowType> {
        if code == 0 {
            Some(GlowType::HastingsGlow)
        } else if code == 1 {
            Some(GlowType::ImageConvolution)
        } else {
            None
        }
    }

    /// Looks up the variant that the number `code` stands for.
    pub fn from_code(code: u16) -> (r: Option<GlowType>)
        ensures
            r == Self::spec_from_code(code),
    {
        if code == 0 {
            Some(GlowType::HastingsGlow)
        } else if code == 1 {
            Some(GlowType::ImageConvolution)
        } else {
            None
        }
    }
}

impl Decode<()> for GlowType {
    open spec fn spec_decode(s: Seq<u8>, pos: int, _args: ()) -> Parsed<GlowType> {
        match spec_u16(s, pos) {
            Err(e) => Err(e),
            Ok((code, end)) => match GlowType::spec_from_code(code) {
                Some(v) => Ok((v, end)),
                None => Err(unrecognized_code(pos, code as u32)),
            },
        }
    }

    fn decode(data: &[u8], pos: usize, _args: ()) -> (r: Decoded<GlowType>) {
        let (code, end) = read_u16(data, pos)?;
        match GlowType::from_code(code) {
            Some(v) => Ok((v, end)),
            None =>
                Err(DecodeError::UnrecognizedTag { pos: pos as u64, tag: code_tag(code as u32) }),
        }
    }
}

impl Element<()> for GlowType {
    proof fn lemma_advances(s: Seq<u8>, pos: int, _args: ()) {
    }
}

/// What a surface mirrors, or what is seen through it.
#[derive(Debug, Clone, Copy, PartialEq, Eq)]
pub enum ReflectionOptions {
    BackdropOnly,
    RaytracingAndBackdrop,
    SphericalMap,
    RaytracingAndSphericalMap,
}

impl View for ReflectionOptions {
    type V = ReflectionOptions;

    open spec fn view(&self) -> ReflectionOptions {
        *self
    }
}

impl ReflectionOptions {
    /// The variant that the number `code` stands for, if there is one.
    pub open spec fn spec_from_code(code: u16) -> Option<ReflectionOptions> {
        if code == 0 {
            Some(ReflectionOptions::BackdropOnly)
        } else if code == 1 {
            Some(ReflectionOptions::RaytracingAndBackdrop)
        } else if code == 2 {
            Some(ReflectionOptions::SphericalMap)
        } else if code == 3 {
            Some(ReflectionOptions::RaytracingAndSphericalMap)
        } else {
            None
        }
    }

    /// Looks up the variant that the number `code` stands for.
    pub fn from_code(code: u16) -> (r: Option<ReflectionOptions>)
        ensures
            r == Self::spec_from_code(code),
    {
        if code == 0 {
            Some(ReflectionOptions::BackdropOnly)
        } else if code == 1 {
            Some(ReflectionOptions::RaytracingAndBackdrop)
        } else if code == 2 {
            Some(ReflectionOptions::SphericalMap)
        } else if code == 3 {
            Some(ReflectionOptions::RaytracingAndSphericalMap)
        } else {
            None
        }
    }
}

impl Decode<u32> for ReflectionOptions {
    open spec fn spec_decode(s: Seq<u8>, pos: int, _length: u32) -> Parsed<ReflectionOptions> {
        match spec_u16(s, pos) {
            Err(e) => Err(e),
            Ok((code, end)) => match ReflectionOptions::spec_from_code(code) {
                Some(v) => Ok((v, end)),
                None => Err(unrecognized_code(pos, code as u32)),
            },
        }
    }

    fn decode(data: &[u8], pos: usize, _length: u32) -> (r: Decoded<ReflectionOptions>) {
        let (code, end) = read_u16(data, pos)?;
        match ReflectionOptions::from_code(code) {
            Some(v) => Ok((v, end)),
            None =>
                Err(DecodeError::UnrecognizedTag { pos: pos as u64, tag: code_tag(code as u32) }),
        }
    }
}

/// Which sides of a polygon are drawn: 1 for the front, 3 for both.
#[derive(Debug, Clone, Copy, PartialEq, Eq)]
pub struct PolygonSidedness {
    pub sidedness: u16,
}

impl View for PolygonSidedness {
    type V = PolygonSidedness;

    open spec fn view(&self) -> PolygonSidedness {
        *self
    }
}

impl Decode<u32> for PolygonSidedness {
    open spec fn spec_decode(s: Seq<u8>, pos: int, _length: u32) -> Parsed<PolygonSidedness> {
        match spec_u16(s, pos) {
            Err(e) => Err(e),
            Ok((sidedness, end)) => Ok((PolygonSidedness { sidedness }, end)),
        }
    }

    fn decode(data: &[u8], pos: usize, _length: u32) -> (r: Decoded<PolygonSidedness>) {
        let (sidedness, end) = read_u16(data, pos)?;
        Ok((PolygonSidedness { sidedness }, end))
    }
}

/// The largest angle, in radians, between polygons that are shaded smoothly.
#[derive(Debug, Clone, Copy, PartialEq, Eq)]
pub struct MaxSmoothingAngle {
    pub max_smoothing_angle: Float,
}

impl View for MaxSmoothingAngle {
    type V = MaxSmoothingAngle;

    open spec fn view(&self) -> MaxSmoothingAngle {
        *self
    }
}

impl Decode<u32> for MaxSmoothingAngle {
    open spec fn spec_decode(s: Seq<u8>, pos: int, _length: u32) -> Parsed<MaxSmoothingAngle> {
        match spec_float(s, pos) {
            Err(e) => Err(e),
            Ok((max_smoothing_angle, end)) => Ok((MaxSmoothingAngle { max_smoothing_angle }, end)),
        }
    }

    fn decode(data: &[u8], pos: usize, _length: u32) -> (r: Decoded<MaxSmoothingAngle>) {
        let (max_smoothing_angle, end) = read_float(data, pos)?;
        Ok((MaxSmoothingAngle { max_smoothing_angle }, end))
    }
}

} // verus!

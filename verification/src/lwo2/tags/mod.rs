pub mod bounding_box;
pub mod discontinuous_vertex_mapping;
pub mod envelope;
pub mod image_clip;
pub mod layer;
pub mod meta;
pub mod point_list;
pub mod polygon_list;
pub mod polygon_tag_mapping;
pub mod surface_definition;
pub mod tag_strings;
pub mod vertex_map_parameter;
pub mod vertex_mapping;

use crate::decode::{
    ascii, available, Decode, Decoded, Element, Parsed, read_tag, same_tag, spec_tag, tags_equal,
};
use crate::error::DecodeError;
use crate::iff::{Chunk, ChunkView, lemma_chunk_extent};
use crate::lwo2::tags::bounding_box::BoundingBox;
use crate::lwo2::tags::discontinuous_vertex_mapping::{
    DiscontinuousVertexMappings, DiscontinuousVertexMappingsView,
};
use crate::lwo2::tags::image_clip::{ImageClip, ImageClipView};
use crate::lwo2::tags::layer::{Layer, LayerView};
use crate::lwo2::tags::meta::{
    DescriptionLine, DescriptionLineView, ThumbnailIconImage, ThumbnailIconImageView,
};
use crate::lwo2::tags::point_list::{PointList, PointListView};
use crate::lwo2::tags::polygon_list::{PolygonLists, PolygonListsView};
use crate::lwo2::tags::polygon_tag_mapping::{PolygonTagMappings, PolygonTagMappingsView};
use crate::lwo2::tags::surface_definition::{SurfaceDefinition, SurfaceDefinitionView};
use crate::lwo2::tags::tag_strings::{TagStrings, TagStringsView};
use crate::lwo2::tags::vertex_map_parameter::VertexMapParameter;
use crate::lwo2::tags::vertex_mapping::{VertexMappings, VertexMappingsView};
use vstd::prelude::*;

verus! {

/// One top-level record of an object file.
#[derive(Debug, PartialEq, Eq)]
pub enum Tag {
    /// The start of a layer.
    Layer(Chunk<Layer>),
    /// The points of the layer.
    PointList(Chunk<PointList>),
    /// A vertex map.
    VertexMapping(Chunk<VertexMappings>),
    /// The tag strings of the object.
    TagStrings(Chunk<TagStrings>),
    /// Tags of the polygons.
    PolygonTagMapping(Chunk<PolygonTagMappings>),
    /// A discontinuous vertex map.
    DiscontinuousVertexMapping(Chunk<DiscontinuousVertexMappings>),
    /// Parameters of a vertex map.
    VertexMapParameter(Chunk<VertexMapParameter>),
    /// The box that holds the points of the layer.
    BoundingBox(Chunk<BoundingBox>),
    /// A line that describes the object.
    DescriptionLine(Chunk<DescriptionLine>),
    /// A comment on the object.
    CommentaryText(Chunk<DescriptionLine>),
    /// A small picture of the object.
    ThumbnailIconImage(Chunk<ThumbnailIconImage>),
    /// The polygons of the layer.
    PolygonList(Chunk<PolygonLists>),
    /// A surface.
    SurfaceDefinition(Chunk<SurfaceDefinition>),
    /// An image or a sequence of images.
    ImageClip(Chunk<ImageClip>),
}

pub enum TagView {
    Layer(ChunkView<LayerView>),
    PointList(ChunkView<PointListView>),
    VertexMapping(ChunkView<VertexMappingsView>),
    TagStrings(ChunkView<TagStringsView>),
    PolygonTagMapping(ChunkView<PolygonTagMappingsView>),
    DiscontinuousVertexMapping(ChunkView<DiscontinuousVertexMappingsView>),
    VertexMapParameter(ChunkView<VertexMapParameter>),
    BoundingBox(ChunkView<BoundingBox>),
    DescriptionLine(ChunkView<DescriptionLineView>),
    CommentaryText(ChunkView<DescriptionLineView>),
    ThumbnailIconImage(ChunkView<ThumbnailIconImageView>),
    PolygonList(ChunkView<PolygonListsView>),
    SurfaceDefinition(ChunkView<SurfaceDefinitionView>),
    ImageClip(ChunkView<ImageClipView>),
}

impl View for Tag {
    type V = TagView;

    open spec fn view(&self) -> TagView {
        match self {
            Tag::Layer(chunk) => TagView::Layer(chunk@),
            Tag::PointList(chunk) => TagView::PointList(chunk@),
            Tag::VertexMapping(chunk) => TagView::VertexMapping(chunk@),
            Tag::TagStrings(chunk) => TagView::TagStrings(chunk@),
            Tag::PolygonTagMapping(chunk) => TagView::PolygonTagMapping(chunk@),
            Tag::DiscontinuousVertexMapping(chunk) => TagView::DiscontinuousVertexMapping(chunk@),
            Tag::VertexMapParameter(chunk) => TagView::VertexMapParameter(chunk@),
            Tag::BoundingBox(chunk) => TagView::BoundingBox(chunk@),
            Tag::DescriptionLine(chunk) => TagView::DescriptionLine(chunk@),
            Tag::CommentaryText(chunk) => TagView::CommentaryText(chunk@),
            Tag::ThumbnailIconImage(chunk) => TagView::ThumbnailIconImage(chunk@),
            Tag::PolygonList(chunk) => TagView::PolygonList(chunk@),
            Tag::SurfaceDefinition(chunk) => TagView::SurfaceDefinition(chunk@),
            Tag::ImageClip(chunk) => TagView::ImageClip(chunk@),
        }
    }
}

impl Decode<()> for Tag {
    open spec fn spec_decode(s: Seq<u8>, pos: int, _args: ()) -> Parsed<TagView> {
        match spec_tag(s, pos) {
            Err(e) => Err(e),
            Ok((tag, start)) => if same_tag(tag, ascii('L', 'A', 'Y', 'R')) {
                match Chunk::<Layer>::spec_decode(s, start, ()) {
                    Err(e) => Err(e),
                    Ok((chunk, end)) => Ok((TagView::Layer(chunk), end)),
                }
            } else if same_tag(tag, ascii('P', 'N', 'T', 'S')) {
                match Chunk::<PointList>::spec_decode(s, start, ()) {
                    Err(e) => Err(e),
                    Ok((chunk, end)) => Ok((TagView::PointList(chunk), end)),
                }
            } else if same_tag(tag, ascii('V', 'M', 'A', 'P')) {
                match Chunk::<VertexMappings>::spec_decode(s, start, ()) {
                    Err(e) => Err(e),
                    Ok((chunk, end)) => Ok((TagView::VertexMapping(chunk), end)),
                }
            } else if same_tag(tag, ascii('T', 'A', 'G', 'S')) {
                match Chunk::<TagStrings>::spec_decode(s, start, ()) {
                    Err(e) => Err(e),
                    Ok((chunk, end)) => Ok((TagView::TagStrings(chunk), end)),
                }
            } else if same_tag(tag, ascii('P', 'T', 'A', 'G')) {
                match Chunk::<PolygonTagMappings>::spec_decode(s, start, ()) {
                    Err(e) => Err(e),
                    Ok((chunk, end)) => Ok((TagView::PolygonTagMapping(chunk), end)),
                }
            } else if same_tag(tag, ascii('V', 'M', 'A', 'D')) {
                match Chunk::<DiscontinuousVertexMappings>::spec_decode(s, start, ()) {
                    Err(e) => Err(e),
                    Ok((chunk, end)) => Ok((TagView::DiscontinuousVertexMapping(chunk), end)),
                }
            } else if same_tag(tag, ascii('V', 'M', 'P', 'A')) {
                match Chunk::<VertexMapParameter>::spec_decode(s, start, ()) {
                    Err(e) => Err(e),
                    Ok((chunk, end)) => Ok((TagView::VertexMapParameter(chunk), end)),
                }
            } else if same_tag(tag, ascii('B', 'B', 'O', 'X')) {
                match Chunk::<BoundingBox>::spec_decode(s, start, ()) {
                    Err(e) => Err(e),
                    Ok((chunk, end)) => Ok((TagView::BoundingBox(chunk), end)),
                }
            } else if same_tag(tag, ascii('D', 'E', 'S', 'C')) {
                match Chunk::<DescriptionLine>::spec_decode(s, start, ()) {
                    Err(e) => Err(e),
                    Ok((chunk, end)) => Ok((TagView::DescriptionLine(chunk), end)),
                }
            } else if same_tag(tag, ascii('T', 'E', 'X', 'T')) {
                match Chunk::<DescriptionLine>::spec_decode(s, start, ()) {
                    Err(e) => Err(e),
                    Ok((chunk, end)) => Ok((TagView::CommentaryText(chunk), end)),
                }
            } else if same_tag(tag, ascii('I', 'C', 'O', 'N')) {
                match Chunk::<ThumbnailIconImage>::spec_decode(s, start, ()) {
                    Err(e) => Err(e),
                    Ok((chunk, end)) => Ok((TagView::ThumbnailIconImage(chunk), end)),
                }
            } else if same_tag(tag, ascii('P', 'O', 'L', 'S')) {
                match Chunk::<PolygonLists>::spec_decode(s, start, ()) {
                    Err(e) => Err(e),
                    Ok((chunk, end)) => Ok((TagView::PolygonList(chunk), end)),
                }
            } else if same_tag(tag, ascii('S', 'U', 'R', 'F')) {
                match Chunk::<SurfaceDefinition>::spec_decode(s, start, ()) {
                    Err(e) => Err(e),
                    Ok((chunk, end)) => Ok((TagView::SurfaceDefinition(chunk), end)),
                }
            } else if same_tag(tag, ascii('C', 'L', 'I', 'P')) {
                match Chunk::<ImageClip>::spec_decode(s, start, ()) {
                    Err(e) => Err(e),
                    Ok((chunk, end)) => Ok((TagView::ImageClip(chunk), end)),
                }
            } else {
                Err(DecodeError::UnrecognizedTag { pos: pos as u64, tag })
            },
        }
    }

    fn decode(data: &[u8], pos: usize, _args: ()) -> (r: Decoded<Tag>) {
        let (tag, start) = read_tag(data, pos)?;
        if tags_equal(&tag, &ascii('L', 'A', 'Y', 'R')) {
            let (chunk, end) = Chunk::<Layer>::decode(data, start, ())?;
            Ok((Tag::Layer(chunk), end))
        } else if tags_equal(&tag, &ascii('P', 'N', 'T', 'S')) {
            let (chunk, end) = Chunk::<PointList>::decode(data, start, ())?;
            Ok((Tag::PointList(chunk), end))
        } else if tags_equal(&tag, &ascii('V', 'M', 'A', 'P')) {
            let (chunk, end) = Chunk::<VertexMappings>::decode(data, start, ())?;
            Ok((Tag::VertexMapping(chunk), end))
        } else if tags_equal(&tag, &ascii('T', 'A', 'G', 'S')) {
            let (chunk, end) = Chunk::<TagStrings>::decode(data, start, ())?;
            Ok((Tag::TagStrings(chunk), end))
        } else if tags_equal(&tag, &ascii('P', 'T', 'A', 'G')) {
            let (chunk, end) = Chunk::<PolygonTagMappings>::decode(data, start, ())?;
            Ok((Tag::PolygonTagMapping(chunk), end))
        } else if tags_equal(&tag, &ascii('V', 'M', 'A', 'D')) {
            let (chunk, end) = Chunk::<DiscontinuousVertexMappings>::decode(data, start, ())?;
            Ok((Tag::DiscontinuousVertexMapping(chunk), end))
        } else if tags_equal(&tag, &ascii('V', 'M', 'P', 'A')) {
            let (chunk, end) = Chunk::<VertexMapParameter>::decode(data, start, ())?;
            Ok((Tag::VertexMapParameter(chunk), end))
        } else if tags_equal(&tag, &ascii('B', 'B', 'O', 'X')) {
            let (chunk, end) = Chunk::<BoundingBox>::decode(data, start, ())?;
            Ok((Tag::BoundingBox(chunk), end))
        } else if tags_equal(&tag, &ascii('D', 'E', 'S', 'C')) {
            let (chunk, end) = Chunk::<DescriptionLine>::decode(data, start, ())?;
            Ok((Tag::DescriptionLine(chunk), end))
        } else if tags_equal(&tag, &ascii('T', 'E', 'X', 'T')) {
            let (chunk, end) = Chunk::<DescriptionLine>::decode(data, start, ())?;
            Ok((Tag::CommentaryText(chunk), end))
        } else if tags_equal(&tag, &ascii('I', 'C', 'O', 'N')) {
            let (chunk, end) = Chunk::<ThumbnailIconImage>::decode(data, start, ())?;
            Ok((Tag::ThumbnailIconImage(chunk), end))
        } else if tags_equal(&tag, &ascii('P', 'O', 'L', 'S')) {
            let (chunk, end) = Chunk::<PolygonLists>::decode(data, start, ())?;
            Ok((Tag::PolygonList(chunk), end))
        } else if tags_equal(&tag, &ascii('S', 'U', 'R', 'F')) {
            let (chunk, end) = Chunk::<SurfaceDefinition>::decode(data, start, ())?;
            Ok((Tag::SurfaceDefinition(chunk), end))
        } else if tags_equal(&tag, &ascii('C', 'L', 'I', 'P')) {
            let (chunk, end) = Chunk::<ImageClip>::decode(data, start, ())?;
            Ok((Tag::ImageClip(chunk), end))
        } else {
            Err(DecodeError::UnrecognizedTag { pos: pos as u64, tag })
        }
    }
}

impl Element<()> for Tag {
    proof fn lemma_advances(s: Seq<u8>, pos: int, _args: ()) {
        match spec_tag(s, pos) {
            Err(_) => {},
            Ok((tag, start)) => {
                if same_tag(tag, ascii('L', 'A', 'Y', 'R')) {
                    lemma_chunk_extent::<Layer>(s, start);
                } else if same_tag(tag, ascii('P', 'N', 'T', 'S')) {
                    lemma_chunk_extent::<PointList>(s, start);
                } else if same_tag(tag, ascii('V', 'M', 'A', 'P')) {
                    lemma_chunk_extent::<VertexMappings>(s, start);
                } else if same_tag(tag, ascii('T', 'A', 'G', 'S')) {
                    lemma_chunk_extent::<TagStrings>(s, start);
                } else if same_tag(tag, ascii('P', 'T', 'A', 'G')) {
                    lemma_chunk_extent::<PolygonTagMappings>(s, start);
                } else if same_tag(tag, ascii('V', 'M', 'A', 'D')) {
                    lemma_chunk_extent::<DiscontinuousVertexMappings>(s, start);
                } else if same_tag(tag, ascii('V', 'M', 'P', 'A')) {
                    lemma_chunk_extent::<VertexMapParameter>(s, start);
                } else if same_tag(tag, ascii('B', 'B', 'O', 'X')) {
                    lemma_chunk_extent::<BoundingBox>(s, start);
                } else if same_tag(tag, ascii('D', 'E', 'S', 'C')) {
                    lemma_chunk_extent::<DescriptionLine>(s, start);
                } else if same_tag(tag, ascii('T', 'E', 'X', 'T')) {
                    lemma_chunk_extent::<DescriptionLine>(s, start);
                } else if same_tag(tag, ascii('I', 'C', 'O', 'N')) {
                    lemma_chunk_extent::<ThumbnailIconImage>(s, start);
                } else if same_tag(tag, ascii('P', 'O', 'L', 'S')) {
                    lemma_chunk_extent::<PolygonLists>(s, start);
                } else if same_tag(tag, ascii('S', 'U', 'R', 'F')) {
                    lemma_chunk_extent::<SurfaceDefinition>(s, start);
                } else if same_tag(tag, ascii('C', 'L', 'I', 'P')) {
                    lemma_chunk_extent::<ImageClip>(s, start);
                }
            },
        }
    }
}

/// The tag is one of the top-level records that are decoded.
pub open spec fn is_top_level_tag(tag: [u8; 4]) -> bool {
    ||| same_tag(tag, ascii('L', 'A', 'Y', 'R'))
    ||| same_tag(tag, ascii('P', 'N', 'T', 'S'))
    ||| same_tag(tag, ascii('V', 'M', 'A', 'P'))
    ||| same_tag(tag, ascii('T', 'A', 'G', 'S'))
    ||| same_tag(tag, ascii('P', 'T', 'A', 'G'))
    ||| same_tag(tag, ascii('V', 'M', 'A', 'D'))
    ||| same_tag(tag, ascii('V', 'M', 'P', 'A'))
    ||| same_tag(tag, ascii('B', 'B', 'O', 'X'))
    ||| same_tag(tag, ascii('D', 'E', 'S', 'C'))
    ||| same_tag(tag, ascii('T', 'E', 'X', 'T'))
    ||| same_tag(tag, ascii('I', 'C', 'O', 'N'))
    ||| same_tag(tag, ascii('P', 'O', 'L', 'S'))
    ||| same_tag(tag, ascii('S', 'U', 'R', 'F'))
    ||| same_tag(tag, ascii('C', 'L', 'I', 'P'))
}

/// A record whose tag is none of the top-level tags is not passed over:
/// decoding it fails with the offset of the tag and its four bytes.
pub proof fn lemma_unrecognized_tag(s: Seq<u8>, pos: int)
    requires
        available(s, pos, 4),
        !is_top_level_tag([s[pos], s[pos + 1], s[pos + 2], s[pos + 3]]),
    ensures
        Tag::spec_decode(s, pos, ()) == Err::<(TagView, int), DecodeError>(
            DecodeError::UnrecognizedTag {
                pos: pos as u64,
                tag: [s[pos], s[pos + 1], s[pos + 2], s[pos + 3]],
            },
        ),
{
}

} // verus!

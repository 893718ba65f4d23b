use lwo::decode::{code_tag, read_i16, read_i32, read_magic, read_u16_if, Decode, Float};
use lwo::error::DecodeError;
use lwo::helpers::BinReadTodo;
use lwo::iff::SubChunk;
use lwo::lwo2::sub_tags::blocks::gradient_texture::{KeyParameters, KeyValues};
use lwo::lwo2::sub_tags::blocks::procedural_texture::BasicValue;
use lwo::lwo2::sub_tags::blocks::texture_mapping::{
    CoordinateSystem, FalloffType, TextureMapping, TextureMappingSubChunk,
};
use lwo::lwo2::sub_tags::blocks::{Algorithm, SurfaceBlockHeader, SurfaceBlocks, TextureChannel};
use lwo::lwo2::sub_tags::plugin::PluginServerNameAndData;
use lwo::lwo2::sub_tags::surface_parameters::{GlowEffect, GlowType, RenderOutlines};
use lwo::lwo2::tags::discontinuous_vertex_mapping::DiscontinuousVertexMappings;
use lwo::lwo2::tags::envelope::{
    Behavior, EnvelopeDefinition, EnvelopeKind, EnvelopeSubChunk, EnvelopeType,
    IntervalInterpolation, IntervalInterpolationType, UserFormat,
};
use lwo::lwo2::tags::image_clip::{ImageClip, ImageClipSubChunk, ImageSequence, PluginAnimation};
use lwo::lwo2::tags::layer::Layer;
use lwo::lwo2::tags::meta::{ThumbnailIconImage, ThumbnailImageEncoding};
use lwo::lwo2::tags::point_list::PointList;
use lwo::lwo2::tags::polygon_list::{PolygonList, PolygonLists};
use lwo::lwo2::tags::vertex_map_parameter::{UvSubdivisionType, VertexMapParameter};
use lwo::lwo2::tags::vertex_mapping::VertexMappings;

fn bits(v: f32) -> Float {
    Float { bits: v.to_bits() }
}

fn floats(values: &[f32]) -> Vec<u8> {
    values.iter().flat_map(|v| v.to_bits().to_be_bytes()).collect()
}

fn sub_chunk(tag: &[u8; 4], payload: &[u8]) -> Vec<u8> {
    let mut out = tag.to_vec();
    out.extend_from_slice(&[(payload.len() >> 8) as u8, payload.len() as u8]);
    out.extend_from_slice(payload);
    if payload.len() % 2 == 1 {
        out.push(0);
    }
    out
}

#[test]
fn signed_numbers_are_twos_complement() {
    assert_eq!(read_i16(&[0xff, 0xfe], 0), Ok((-2, 2)));
    assert_eq!(read_i16(&[0x80, 0x00], 0), Ok((i16::MIN, 2)));
    assert_eq!(read_i16(&[0x7f, 0xff], 0), Ok((i16::MAX, 2)));
    assert_eq!(read_i32(&[0xff, 0xff, 0xff, 0xff], 0), Ok((-1, 4)));
    assert_eq!(read_i32(&[0x80, 0, 0, 0], 0), Ok((i32::MIN, 4)));
    assert_eq!(read_i32(&[0, 0, 1, 0], 0), Ok((256, 4)));
}

#[test]
fn magic_is_compared_byte_by_byte() {
    assert_eq!(read_magic(b"..FUNC", 2, *b"FUNC"), Ok(6));
    assert_eq!(
        read_magic(b"..FUNK", 2, *b"FUNC"),
        Err(DecodeError::MagicMismatch { pos: 2, expected: *b"FUNC", actual: *b"FUNK" })
    );
}

#[test]
fn code_is_written_most_significant_byte_first() {
    assert_eq!(code_tag(0x0102_0304), [1, 2, 3, 4]);
    assert_eq!(code_tag(9), [0, 0, 0, 9]);
}

#[test]
fn optional_number() {
    assert_eq!(read_u16_if(true, &[0, 9], 0), Ok((Some(9), 2)));
    assert_eq!(read_u16_if(false, &[0, 9], 0), Ok((None, 0)));
}

#[test]
fn enumeration_by_number() {
    assert_eq!(Behavior::decode(&[0, 5], 0, 2), Ok((Behavior::Linear, 2)));
    assert_eq!(Behavior::from_code(2), Some(Behavior::Repeat));
    assert_eq!(Behavior::from_code(6), None);
    assert_eq!(
        Behavior::decode(&[1, 9], 0, 2),
        Err(DecodeError::UnrecognizedTag { pos: 0, tag: [0, 0, 1, 9] })
    );
    assert_eq!(Behavior::decode(&[1], 0, 2), Err(DecodeError::IoError { pos: 0 }));
    assert_eq!(CoordinateSystem::decode(&[0, 1], 0, 2), Ok((CoordinateSystem::WorldCoordinates, 2)));
    assert_eq!(FalloffType::from_code(4), Some(FalloffType::LinearZ));
}

#[test]
fn enumeration_by_one_byte() {
    let (t, end) = EnvelopeType::decode(&[4, 10], 0, 2).unwrap();
    assert_eq!(t, EnvelopeType { user_format: UserFormat::Percent, kind: EnvelopeKind::ColorR });
    assert_eq!(end, 2);
    assert_eq!(
        EnvelopeType::decode(&[1, 10], 0, 2),
        Err(DecodeError::UnrecognizedTag { pos: 0, tag: [0, 0, 0, 1] })
    );
    assert_eq!(
        EnvelopeType::decode(&[2, 16], 0, 2),
        Err(DecodeError::UnrecognizedTag { pos: 1, tag: [0, 0, 0, 16] })
    );
}

#[test]
fn enumeration_by_four_bytes() {
    let data = [0, 0, 0, 3, 0xff, 0xff, 0xff, 0xfe];
    let (p, end) = VertexMapParameter::decode(&data, 0, 8).unwrap();
    assert_eq!(p.uv_subdivision_type, UvSubdivisionType::SubpatchLinearEdges);
    assert_eq!(p.sketch_color, -2);
    assert_eq!(end, 8);
    assert_eq!(
        VertexMapParameter::decode(&[0xff, 0xff, 0xff, 0xff, 0, 0, 0, 0], 0, 8),
        Err(DecodeError::UnrecognizedTag { pos: 0, tag: [0xff; 4] })
    );
}

#[test]
fn enumeration_by_tag() {
    assert_eq!(TextureChannel::decode(b"BUMP", 0, ()), Ok((TextureChannel::Bump, 4)));
    assert_eq!(
        IntervalInterpolationType::decode(b"TCB\0", 0, ()),
        Ok((IntervalInterpolationType::KochanekBartels, 4))
    );
    assert_eq!(
        IntervalInterpolationType::decode(b"TCBX", 0, ()),
        Err(DecodeError::UnrecognizedTag { pos: 0, tag: *b"TCBX" })
    );
    assert_eq!(TextureChannel::from_tag(b"NOPE"), None);
}

#[test]
fn placeholder_never_decodes() {
    assert_eq!(
        BinReadTodo::decode(&[1, 2, 3], 1, ()),
        Err(DecodeError::StructuralAssertion { pos: 1 })
    );
}

#[test]
fn point_list_by_length() {
    let data = floats(&[1.0, 2.0, 3.0, 4.0, 5.0, 6.0]);
    let (points, end) = PointList::decode(&data, 0, 24).unwrap();
    assert_eq!(points.point_location, vec![[bits(1.0), bits(2.0), bits(3.0)], [bits(4.0), bits(5.0), bits(6.0)]]);
    assert_eq!(end, 24);
    assert_eq!(PointList::decode(&data, 0, 0), Ok((PointList { point_location: vec![] }, 0)));
    assert_eq!(PointList::decode(&data, 0, 14), Err(DecodeError::StructuralAssertion { pos: 0 }));
    assert_eq!(PointList::decode(&data, 0, 36), Err(DecodeError::IoError { pos: 24 }));
}

#[test]
fn polygon_packs_count_and_flags() {
    // 0x0c02: flags 3 in the high six bits, two vertices in the low ten.
    let data = [0x0c, 0x02, 0x00, 0x07, 0xff, 0x01, 0x00, 0x00];
    let (polygon, end) = PolygonList::decode(&data, 0, ()).unwrap();
    assert_eq!(polygon, PolygonList { flags: 3, vert: vec![7, 65536] });
    assert_eq!(end, 8);
    let (all_flags, _) = PolygonList::decode(&[0xfc, 0x00], 0, ()).unwrap();
    assert_eq!(all_flags, PolygonList { flags: 63, vert: vec![] });
}

#[test]
fn polygon_list_needs_its_kind() {
    let data = [b'F', b'A', b'C', b'E', 0, 1, 0, 9];
    let (list, end) = PolygonLists::decode(&data, 0, 8).unwrap();
    assert_eq!(list.kind, *b"FACE");
    assert_eq!(list.polygons, vec![PolygonList { flags: 0, vert: vec![9] }]);
    assert_eq!(end, 8);
    assert_eq!(PolygonLists::decode(&data, 0, 3), Err(DecodeError::StructuralAssertion { pos: 0 }));
    assert_eq!(PolygonLists::decode(&data, 0, 4).unwrap().0.polygons, vec![]);
}

#[test]
fn vertex_map_threads_its_dimension() {
    let mut data = b"TXUV".to_vec();
    data.extend_from_slice(&[0, 2]);
    data.extend_from_slice(b"uv\0\0");
    data.extend_from_slice(&[0, 5]);
    data.extend(floats(&[0.25, 0.5]));
    data.extend_from_slice(&[0, 6]);
    data.extend(floats(&[0.75, 1.0]));
    let (map, end) = VertexMappings::decode(&data, 0, 30).unwrap();
    assert_eq!(map.kind, *b"TXUV");
    assert_eq!(map.name, "uv");
    assert_eq!(map.mapping.len(), 2);
    assert_eq!(map.mapping[0].vert, 5);
    assert_eq!(map.mapping[0].value, vec![bits(0.25), bits(0.5)]);
    assert_eq!(map.mapping[1].vert, 6);
    assert_eq!(map.mapping[1].value, vec![bits(0.75), bits(1.0)]);
    assert_eq!(end, 30);
    // A budget of ten bytes holds the first entry only.
    assert_eq!(VertexMappings::decode(&data, 0, 20).unwrap().0.mapping.len(), 1);
    // The header alone takes ten bytes.
    assert_eq!(VertexMappings::decode(&data, 0, 9), Err(DecodeError::StructuralAssertion { pos: 0 }));
    assert_eq!(VertexMappings::decode(&data, 0, 10).unwrap().0.mapping.len(), 0);
}

#[test]
fn discontinuous_vertex_map() {
    let mut data = b"TXUV".to_vec();
    data.extend_from_slice(&[0, 1]);
    data.extend_from_slice(b"m\0");
    data.extend_from_slice(&[0, 5, 0, 9]);
    data.extend(floats(&[2.0]));
    let (map, end) = DiscontinuousVertexMappings::decode(&data, 0, 16).unwrap();
    assert_eq!(map.name, b"m".to_vec());
    assert_eq!(map.mappings.len(), 1);
    assert_eq!((map.mappings[0].vert, map.mappings[0].poly), (5, 9));
    assert_eq!(map.mappings[0].values, vec![bits(2.0)]);
    assert_eq!(end, 16);
}

#[test]
fn layer_reads_a_parent_below_the_declared_length() {
    let mut data = vec![0, 1, 0, 0];
    data.extend(floats(&[0.0, 0.0, 0.0]));
    data.extend_from_slice(b"A\0");
    data.extend_from_slice(&[0, 7]);
    let (layer, end) = Layer::decode(&data, 0, 20).unwrap();
    assert_eq!(layer.number, 1);
    assert_eq!(layer.name, b"A".to_vec());
    assert_eq!(layer.status, 18);
    assert_eq!(layer.parent, Some(7));
    assert_eq!(end, 20);
    let (layer, end) = Layer::decode(&data, 0, 18).unwrap();
    assert_eq!(layer.parent, None);
    assert_eq!(end, 18);
}

#[test]
fn thumbnail_computes_its_height() {
    let data = [0, 0, 0, 2, 1, 2, 3, 4, 5, 6];
    let (icon, end) = ThumbnailIconImage::decode(&data, 0, 10).unwrap();
    assert_eq!(icon.encoding, ThumbnailImageEncoding::UncompressedRgb);
    assert_eq!((icon.width, icon.height), (2, 3));
    assert_eq!(icon.data, vec![1, 2, 3, 4, 5, 6]);
    assert_eq!(end, 10);
    assert_eq!(
        ThumbnailIconImage::decode(&[0, 0, 0, 0, 1, 2], 0, 6),
        Err(DecodeError::StructuralAssertion { pos: 0 })
    );
    assert_eq!(
        ThumbnailIconImage::decode(&data, 0, 3),
        Err(DecodeError::StructuralAssertion { pos: 0 })
    );
    assert_eq!(
        ThumbnailIconImage::decode(&[0, 1, 0, 2], 0, 4),
        Err(DecodeError::UnrecognizedTag { pos: 0, tag: [0, 0, 0, 1] })
    );
}

#[test]
fn algorithm_takes_what_the_name_leaves() {
    let data = [b'a', b'b', 0, 0, 9, 8, 7, 6, 5];
    let (algorithm, end) = Algorithm::decode(&data, 0, 7).unwrap();
    assert_eq!(algorithm.algorithm_name, "ab");
    assert_eq!(algorithm.data, vec![9, 8, 7, 6]);
    assert_eq!(end, 8);
    assert_eq!(Algorithm::decode(&data, 0, 2), Err(DecodeError::StructuralAssertion { pos: 0 }));
    assert_eq!(Algorithm::decode(&data, 0, 3).unwrap().0.data, vec![]);
}

#[test]
fn plugin_data_is_what_is_left_of_the_length() {
    let data = [b'p', 0, 0, 1, 0xaa, 0xbb, 0xcc];
    let (plugin, end) = PluginServerNameAndData::decode(&data, 0, 6).unwrap();
    assert_eq!(plugin.server_name, "p");
    assert_eq!(plugin.flags, 1);
    assert_eq!(plugin.parameters, vec![0xaa, 0xbb]);
    assert_eq!(end, 6);
    assert_eq!(
        PluginServerNameAndData::decode(&data, 0, 3),
        Err(DecodeError::StructuralAssertion { pos: 0 })
    );
    assert_eq!(PluginServerNameAndData::decode(&data, 0, 8), Err(DecodeError::IoError { pos: 4 }));
}

#[test]
fn plugin_animation_takes_as_many_bytes_as_its_header() {
    let data = [b'f', 0, b's', 0, 0, 2, 1, 2, 3, 4, 5, 6, 7];
    let (animation, end) = PluginAnimation::decode(&data, 0, 12).unwrap();
    assert_eq!(animation.file_name, b"f".to_vec());
    assert_eq!(animation.server_name, b"s".to_vec());
    assert_eq!(animation.flags, 2);
    assert_eq!(animation.data, vec![1, 2, 3, 4, 5, 6]);
    assert_eq!(end, 12);
}

#[test]
fn image_sequence_fields() {
    let data = [3, 1, 0xff, 0xff, 0, 0, 0, 1, 0, 9, b'a', 0, b'.', b't', 0, 0];
    let (sequence, end) = ImageSequence::decode(&data, 0, 16).unwrap();
    assert_eq!((sequence.num_digits, sequence.flags, sequence.offset), (3, 1, -1));
    assert_eq!((sequence.start, sequence.end), (1, 9));
    assert_eq!(sequence.prefix, b"a".to_vec());
    assert_eq!(sequence.suffix, b".t".to_vec());
    assert_eq!(end, 16);
}

#[test]
fn image_clip_with_sub_records() {
    let mut data = vec![0, 0, 0, 1];
    data.extend(sub_chunk(b"STIL", b"a.png\0"));
    data.extend(sub_chunk(b"HUE\0", &[0x3f, 0x80, 0, 0, 0, 0]));
    let (clip, end) = ImageClip::decode(&data, 0, data.len() as u32).unwrap();
    assert_eq!(clip.index, 1);
    assert_eq!(clip.attributes.len(), 2);
    match &clip.attributes[0] {
        ImageClipSubChunk::StillImage(s) => assert_eq!(s.data.name, b"a.png".to_vec()),
        other => panic!("unexpected sub-record {:?}", other),
    }
    match &clip.attributes[1] {
        ImageClipSubChunk::Hue(h) => assert_eq!(h.data.value, bits(1.0)),
        other => panic!("unexpected sub-record {:?}", other),
    }
    assert_eq!(end, data.len());
    assert_eq!(ImageClip::decode(&data, 0, 2), Err(DecodeError::StructuralAssertion { pos: 0 }));
}

#[test]
fn envelope_with_four_byte_tags() {
    let mut data = vec![0, 1];
    data.extend(sub_chunk(b"PRE ", &[0, 1]));
    data.extend(sub_chunk(b"KEY ", &floats(&[0.0, 2.5])));
    let mut span = b"LINE".to_vec();
    span.extend(floats(&[1.0]));
    data.extend(sub_chunk(b"SPAN", &span));
    let (envelope, end) = EnvelopeDefinition::decode(&data, 0, data.len() as u32).unwrap();
    assert_eq!(envelope.index, 1);
    assert_eq!(envelope.attributes.len(), 3);
    match &envelope.attributes[0] {
        EnvelopeSubChunk::PreBehavior(b) => assert_eq!(b.data, Behavior::Constant),
        other => panic!("unexpected sub-record {:?}", other),
    }
    match &envelope.attributes[1] {
        EnvelopeSubChunk::KeyframeTimeAndValue(k) => assert_eq!(k.data.value, bits(2.5)),
        other => panic!("unexpected sub-record {:?}", other),
    }
    match &envelope.attributes[2] {
        EnvelopeSubChunk::IntervalInterpolation(i) => {
            assert_eq!(i.data.kind, IntervalInterpolationType::Line);
            assert_eq!(i.data.parameters, vec![bits(1.0)]);
        }
        other => panic!("unexpected sub-record {:?}", other),
    }
    assert_eq!(end, data.len());
}

#[test]
fn interval_needs_its_kind() {
    assert_eq!(
        IntervalInterpolation::decode(b"STEP", 0, 3),
        Err(DecodeError::StructuralAssertion { pos: 0 })
    );
    let (i, end) = IntervalInterpolation::decode(b"STEP", 0, 7).unwrap();
    assert_eq!(i.parameters, vec![]);
    assert_eq!(end, 4);
}

#[test]
fn outlines_by_length() {
    let mut data = vec![0, 1];
    data.extend(floats(&[2.0]));
    data.extend_from_slice(&[0, 4]);
    data.extend(floats(&[0.1, 0.2, 0.3]));
    data.extend_from_slice(&[0, 5]);
    let (short, end) = RenderOutlines::decode(&data, 0, 2).unwrap();
    assert_eq!((short.flags, short.size, short.size_envelope), (1, bits(0.0), 0));
    assert_eq!((short.color, short.color_envelope), ([bits(0.0); 3], 0));
    assert_eq!(end, 2);
    let (middle, end) = RenderOutlines::decode(&data, 0, 8).unwrap();
    assert_eq!((middle.size, middle.size_envelope), (bits(2.0), 4));
    assert_eq!(middle.color_envelope, 0);
    assert_eq!(end, 8);
    let (long, end) = RenderOutlines::decode(&data, 0, 22).unwrap();
    assert_eq!(long.color, [bits(0.1), bits(0.2), bits(0.3)]);
    assert_eq!(long.color_envelope, 5);
    assert_eq!(end, 22);
}

#[test]
fn glow_by_length() {
    let mut data = vec![0, 1];
    data.extend(floats(&[0.5]));
    data.extend_from_slice(&[0, 0]);
    data.extend(floats(&[3.0]));
    data.extend_from_slice(&[0, 2]);
    let (short, end) = GlowEffect::decode(&data, 0, 6).unwrap();
    assert_eq!(short.kind, GlowType::ImageConvolution);
    assert_eq!((short.size, short.size_envelope), (bits(0.0), 0));
    assert_eq!(end, 8);
    let (long, end) = GlowEffect::decode(&data, 0, 14).unwrap();
    assert_eq!((long.intensity, long.size, long.size_envelope), (bits(0.5), bits(3.0), 2));
    assert_eq!(end, 14);
}

#[test]
fn counted_payloads() {
    let (keys, end) = KeyParameters::decode(&[0, 1, 0, 2, 0, 3], 0, 5).unwrap();
    assert_eq!(keys.repeat_mode, vec![1, 2]);
    assert_eq!(end, 4);
    let (value, end) = BasicValue::decode(&floats(&[1.0, 2.0, 3.0]), 0, 12).unwrap();
    assert_eq!(value.value, vec![bits(1.0), bits(2.0), bits(3.0)]);
    assert_eq!(end, 12);
    let data = floats(&[0.5, 1.0, 0.0, 0.0, 1.0]);
    let (keys, end) = KeyValues::decode(&data, 0, 20).unwrap();
    assert_eq!(keys.key_values.len(), 1);
    assert_eq!(keys.key_values[0].input, bits(0.5));
    assert_eq!(keys.key_values[0].output, [bits(1.0), bits(0.0), bits(0.0), bits(1.0)]);
    assert_eq!(end, 20);
}

#[test]
fn texture_mapping_inside_its_frame() {
    let mut payload = Vec::new();
    let mut center = floats(&[1.0, 2.0, 3.0]);
    center.extend_from_slice(&[0, 0]);
    payload.extend(sub_chunk(b"CNTR", &center));
    payload.extend(sub_chunk(b"CSYS", &[0, 1]));
    let mut data = vec![(payload.len() >> 8) as u8, payload.len() as u8];
    data.extend(&payload);
    let (mapping, end) = SubChunk::<TextureMapping>::decode(&data, 0, ()).unwrap();
    assert_eq!(mapping.length as usize, payload.len());
    assert_eq!(mapping.data.attributes.len(), 2);
    match &mapping.data.attributes[1] {
        TextureMappingSubChunk::CoordinateSystem(c) => {
            assert_eq!(c.data, CoordinateSystem::WorldCoordinates)
        }
        other => panic!("unexpected sub-record {:?}", other),
    }
    assert_eq!(end, data.len());
}

#[test]
fn block_header_passes_its_first_two_bytes() {
    let mut data = vec![0x80, 0x00];
    data.extend(sub_chunk(b"ENAB", &[0, 1]));
    let (header, end) = SurfaceBlockHeader::decode(&data, 0, 10).unwrap();
    assert_eq!(header.block_attributes.len(), 1);
    assert_eq!(end, 10);
    assert_eq!(
        SurfaceBlockHeader::decode(&data, 0, 3),
        Err(DecodeError::StructuralAssertion { pos: 0 })
    );
    assert_eq!(SurfaceBlockHeader::decode(&[0x80], 0, 10), Err(DecodeError::IoError { pos: 0 }));
}

#[test]
fn shader_block_wants_its_marker() {
    let mut header = vec![0x80, 0x00];
    header.extend(sub_chunk(b"ENAB", &[0, 1]));
    let mut data = b"SHDR".to_vec();
    data.extend_from_slice(&[0, header.len() as u8]);
    data.extend(&header);
    let marker = data.len();
    data.extend(sub_chunk(b"FUNC", b"s\0\x01\x02"));
    match SurfaceBlocks::decode(&data, 0, data.len() as u32).unwrap() {
        (SurfaceBlocks::ShaderPlugin { header, algorithm }, end) => {
            assert_eq!(header.length, 10);
            assert_eq!(algorithm.data.algorithm_name, "s");
            assert_eq!(algorithm.data.data, vec![1, 2]);
            assert_eq!(end, data.len());
        }
        other => panic!("unexpected block {:?}", other),
    }
    data[marker + 3] = b'K';
    assert_eq!(
        SurfaceBlocks::decode(&data, 0, data.len() as u32),
        Err(DecodeError::MagicMismatch { pos: marker as u64, expected: *b"FUNC", actual: *b"FUNK" })
    );
    assert_eq!(
        SurfaceBlocks::decode(b"WHAT", 0, 4),
        Err(DecodeError::UnrecognizedTag { pos: 0, tag: *b"WHAT" })
    );
}

#[test]
fn block_budget_needs_room_for_the_header() {
    let mut header = vec![0x80, 0x00];
    header.extend(sub_chunk(b"ENAB", &[0, 1]));
    let mut data = b"PROC".to_vec();
    data.extend_from_slice(&[0, header.len() as u8]);
    data.extend(&header);
    data.extend(sub_chunk(b"AXIS", &[0, 2]));
    let (block, end) = SurfaceBlocks::decode(&data, 0, 24).unwrap();
    match block {
        SurfaceBlocks::ProceduralTexture { attributes, .. } => assert_eq!(attributes.len(), 1),
        other => panic!("unexpected block {:?}", other),
    }
    assert_eq!(end, 24);
    assert_eq!(
        SurfaceBlocks::decode(&data, 0, 15),
        Err(DecodeError::StructuralAssertion { pos: 0 })
    );
}

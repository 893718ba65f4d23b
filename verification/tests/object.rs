use lwo::decode::Float;
use lwo::error::DecodeError;
use lwo::lwo2::sub_tags::blocks::{SurfaceBlockHeaderSubChunk, SurfaceBlocks, TextureChannel};
use lwo::lwo2::sub_tags::blocks::image_texture::SurfaceBlockImageTextureSubChunk;
use lwo::lwo2::sub_tags::surface_parameters::SurfaceParameterSubChunk;
use lwo::lwo2::tags::Tag;
use lwo::LightWaveObject;

fn be32(v: u32) -> [u8; 4] {
    [(v >> 24) as u8, (v >> 16) as u8, (v >> 8) as u8, v as u8]
}

fn be16(v: u16) -> [u8; 2] {
    [(v >> 8) as u8, v as u8]
}

/// A top-level record: tag, length, payload and the pad byte.
fn chunk(tag: &[u8; 4], payload: &[u8]) -> Vec<u8> {
    let mut out = tag.to_vec();
    out.extend_from_slice(&be32(payload.len() as u32));
    out.extend_from_slice(payload);
    if payload.len() % 2 == 1 {
        out.push(0);
    }
    out
}

/// A nested record: tag, length, payload and the pad byte.
fn sub_chunk(tag: &[u8; 4], payload: &[u8]) -> Vec<u8> {
    let mut out = tag.to_vec();
    out.extend_from_slice(&be16(payload.len() as u16));
    out.extend_from_slice(payload);
    if payload.len() % 2 == 1 {
        out.push(0);
    }
    out
}

/// A whole file around the given records.
fn file(records: &[Vec<u8>]) -> Vec<u8> {
    let body: Vec<u8> = records.iter().flatten().copied().collect();
    let mut out = b"FORM".to_vec();
    out.extend_from_slice(&be32(body.len() as u32 + 4));
    out.extend_from_slice(b"LWO2");
    out.extend_from_slice(&body);
    out
}

fn floats(values: &[f32]) -> Vec<u8> {
    values.iter().flat_map(|v| v.to_bits().to_be_bytes()).collect()
}

fn number(f: Float) -> f32 {
    f32::from_bits(f.bits)
}

#[test]
fn minimal_file_with_one_point() {
    let data = file(&[chunk(b"PNTS", &floats(&[1.0, 2.0, 3.0]))]);
    assert_eq!(data.len(), 32);
    let object = LightWaveObject::read(&data).unwrap();
    assert_eq!(object.file_size, 24);
    assert_eq!(object.data.len(), 1);
    match &object.data[0] {
        Tag::PointList(points) => {
            assert_eq!(points.length, 12);
            assert_eq!(points.data.point_location.len(), 1);
            let p = points.data.point_location[0];
            assert_eq!((number(p[0]), number(p[1]), number(p[2])), (1.0, 2.0, 3.0));
        }
        other => panic!("unexpected record {:?}", other),
    }
}

#[test]
fn file_without_records() {
    let data = file(&[]);
    let object = LightWaveObject::read(&data).unwrap();
    assert_eq!(object.file_size, 4);
    assert!(object.data.is_empty());
}

#[test]
fn declared_file_size_is_not_checked() {
    let mut data = file(&[]);
    data[4..8].copy_from_slice(&be32(0xdead_beef));
    assert_eq!(LightWaveObject::read(&data).unwrap().file_size, 0xdead_beef);
}

#[test]
fn unrecognized_top_level_tag() {
    let data = file(&[chunk(b"XXXX", &[])]);
    assert_eq!(
        LightWaveObject::read(&data),
        Err(DecodeError::UnrecognizedTag { pos: 12, tag: *b"XXXX" })
    );
}

#[test]
fn unrecognized_tag_after_a_good_record() {
    let data = file(&[chunk(b"PNTS", &floats(&[1.0, 2.0, 3.0])), chunk(b"ABCD", &[1, 2])]);
    let e = LightWaveObject::read(&data).unwrap_err();
    assert_eq!(e, DecodeError::UnrecognizedTag { pos: 32, tag: *b"ABCD" });
    assert_eq!(e.offset(), 32);
}

#[test]
fn wrong_container_magic() {
    let mut data = file(&[]);
    data[3] = b'X';
    assert_eq!(
        LightWaveObject::read(&data),
        Err(DecodeError::MagicMismatch { pos: 0, expected: *b"FORM", actual: *b"FORX" })
    );
}

#[test]
fn wrong_format_magic() {
    let mut data = file(&[]);
    data[8..12].copy_from_slice(b"LWOB");
    assert_eq!(
        LightWaveObject::read(&data),
        Err(DecodeError::MagicMismatch { pos: 8, expected: *b"LWO2", actual: *b"LWOB" })
    );
}

#[test]
fn truncated_header() {
    assert_eq!(LightWaveObject::read(&[]), Err(DecodeError::IoError { pos: 0 }));
    assert_eq!(LightWaveObject::read(b"FOR"), Err(DecodeError::IoError { pos: 0 }));
    assert_eq!(LightWaveObject::read(b"FORM\0\0"), Err(DecodeError::IoError { pos: 4 }));
    assert_eq!(LightWaveObject::read(b"FORM\0\0\0\x04LW"), Err(DecodeError::IoError { pos: 8 }));
}

#[test]
fn trailing_bytes_that_are_no_record() {
    let mut data = file(&[chunk(b"PNTS", &floats(&[1.0, 2.0, 3.0]))]);
    data.extend_from_slice(&[0, 0]);
    assert_eq!(LightWaveObject::read(&data), Err(DecodeError::IoError { pos: 32 }));
}

#[test]
fn record_longer_than_the_input() {
    let mut data = file(&[chunk(b"BBOX", &floats(&[0.0, 0.0, 0.0, 1.0, 1.0, 1.0]))]);
    // Declare two bytes more than are there.
    data[16..20].copy_from_slice(&be32(26));
    assert_eq!(LightWaveObject::read(&data), Err(DecodeError::IoError { pos: 20 }));
}

#[test]
fn point_list_that_is_no_multiple_of_twelve() {
    let mut payload = floats(&[1.0, 2.0, 3.0]);
    payload.push(0);
    let data = file(&[chunk(b"PNTS", &payload)]);
    assert_eq!(LightWaveObject::read(&data), Err(DecodeError::StructuralAssertion { pos: 20 }));
}

#[test]
fn tag_string_that_is_not_text() {
    let data = file(&[chunk(b"TAGS", &[b'o', b'k', 0, 0, 0xff, 0x00])]);
    assert_eq!(LightWaveObject::read(&data), Err(DecodeError::EncodingError { pos: 24 }));
}

#[test]
fn records_keep_their_order() {
    let data = file(&[
        chunk(b"TAGS", b"Default\0"),
        chunk(b"PNTS", &floats(&[0.0, 0.0, 0.0, 1.0, 0.0, 0.0, 0.0, 1.0, 0.0])),
        chunk(b"POLS", &[b'F', b'A', b'C', b'E', 0x00, 0x03, 0, 0, 0, 1, 0, 2]),
        chunk(b"PTAG", &[b'S', b'U', b'R', b'F', 0, 0, 0, 0]),
        chunk(b"DESC", b"a triangle\0"),
    ]);
    let object = LightWaveObject::read(&data).unwrap();
    assert_eq!(object.data.len(), 5);
    match &object.data[0] {
        Tag::TagStrings(c) => assert_eq!(c.data.tag_strings, vec![String::from("Default")]),
        other => panic!("unexpected record {:?}", other),
    }
    match &object.data[1] {
        Tag::PointList(c) => {
            assert_eq!(c.data.point_location.len(), 3);
            assert_eq!(number(c.data.point_location[1][0]), 1.0);
            assert_eq!(number(c.data.point_location[2][1]), 1.0);
        }
        other => panic!("unexpected record {:?}", other),
    }
    match &object.data[2] {
        Tag::PolygonList(c) => {
            assert_eq!(c.data.kind, *b"FACE");
            assert_eq!(c.data.polygons.len(), 1);
            assert_eq!(c.data.polygons[0].flags, 0);
            assert_eq!(c.data.polygons[0].vert, vec![0, 1, 2]);
        }
        other => panic!("unexpected record {:?}", other),
    }
    match &object.data[3] {
        Tag::PolygonTagMapping(c) => {
            assert_eq!(c.data.kind, *b"SURF");
            assert_eq!(c.data.mappings.len(), 1);
            assert_eq!((c.data.mappings[0].poly, c.data.mappings[0].tag), (0, 0));
        }
        other => panic!("unexpected record {:?}", other),
    }
    match &object.data[4] {
        Tag::DescriptionLine(c) => {
            assert_eq!(c.length, 11);
            assert_eq!(c.data.description_line, b"a triangle".to_vec());
        }
        other => panic!("unexpected record {:?}", other),
    }
}

#[test]
fn surface_with_nested_block() {
    let mut colr = floats(&[0.5, 0.25, 1.0]);
    colr.extend_from_slice(&[0, 0]);
    let mut diff = floats(&[0.75]);
    diff.extend_from_slice(&[0, 3]);

    let mut header = vec![0x80, 0x00];
    header.extend(sub_chunk(b"CHAN", b"COLR"));
    let mut block = b"IMAP".to_vec();
    block.extend_from_slice(&be16(header.len() as u16));
    block.extend(header);
    block.extend(sub_chunk(b"IMAG", &[0, 7]));
    assert_eq!(block.len(), 26);

    let mut surface = b"Skin\0\0".to_vec();
    surface.extend_from_slice(&[0, 0]);
    surface.extend(sub_chunk(b"COLR", &colr));
    surface.extend(sub_chunk(b"DIFF", &diff));
    surface.extend(sub_chunk(b"BLOK", &block));

    let data = file(&[chunk(b"SURF", &surface)]);
    let object = LightWaveObject::read(&data).unwrap();
    let definition = match &object.data[0] {
        Tag::SurfaceDefinition(c) => &c.data,
        other => panic!("unexpected record {:?}", other),
    };
    assert_eq!(definition.name, "Skin");
    assert_eq!(definition.source, "");
    assert_eq!(definition.attributes.len(), 3);
    match &definition.attributes[0] {
        SurfaceParameterSubChunk::BaseColor(c) => {
            assert_eq!(c.length, 14);
            assert_eq!(number(c.data.base_color[0]), 0.5);
            assert_eq!(number(c.data.base_color[1]), 0.25);
            assert_eq!(number(c.data.base_color[2]), 1.0);
            assert_eq!(c.data.envelope, 0);
        }
        other => panic!("unexpected attribute {:?}", other),
    }
    match &definition.attributes[1] {
        SurfaceParameterSubChunk::BaseShadingValueDiffuse(c) => {
            assert_eq!(number(c.data.value), 0.75);
            assert_eq!(c.data.envelope, 3);
        }
        other => panic!("unexpected attribute {:?}", other),
    }
    match &definition.attributes[2] {
        SurfaceParameterSubChunk::Blocks(c) => match &c.data {
            SurfaceBlocks::ImageMapTexture { header, attributes } => {
                assert_eq!(header.length, 12);
                assert_eq!(header.data.block_attributes.len(), 1);
                match &header.data.block_attributes[0] {
                    SurfaceBlockHeaderSubChunk::Channel(ch) => {
                        assert_eq!(ch.data.texture_channel, TextureChannel::Color)
                    }
                    other => panic!("unexpected header entry {:?}", other),
                }
                assert_eq!(attributes.len(), 1);
                match &attributes[0] {
                    SurfaceBlockImageTextureSubChunk::ImageMap(i) => {
                        assert_eq!(i.data.texture_image, 7)
                    }
                    other => panic!("unexpected block entry {:?}", other),
                }
            }
            other => panic!("unexpected block {:?}", other),
        },
        other => panic!("unexpected attribute {:?}", other),
    }
}

#[test]
fn unrecognized_nested_tag_fails_the_file() {
    let mut surface = b"S\0".to_vec();
    surface.extend_from_slice(&[0, 0]);
    surface.extend(sub_chunk(b"ZZZZ", &[1, 2]));
    let data = file(&[chunk(b"SURF", &surface)]);
    assert_eq!(
        LightWaveObject::read(&data),
        Err(DecodeError::UnrecognizedTag { pos: 24, tag: *b"ZZZZ" })
    );
}

#[test]
fn odd_record_is_followed_by_its_pad_byte() {
    let data = file(&[chunk(b"DESC", b"ab\0"), chunk(b"TEXT", b"c\0")]);
    let object = LightWaveObject::read(&data).unwrap();
    assert_eq!(object.data.len(), 2);
    match (&object.data[0], &object.data[1]) {
        (Tag::DescriptionLine(a), Tag::CommentaryText(b)) => {
            assert_eq!((a.length, b.length), (3, 2));
            assert_eq!(a.data.description_line, b"ab".to_vec());
            assert_eq!(b.data.description_line, b"c".to_vec());
        }
        other => panic!("unexpected records {:?}", other),
    }
}

#[test]
fn object_that_begins_inside_the_input() {
    // One byte before the file: every record now begins at an odd offset,
    // and the pad byte follows the record of even length.
    let mut data = vec![0x99];
    data.extend(file(&[chunk(b"DESC", b"ab\0\0")]));
    data.push(0);
    let object = LightWaveObject::read_at(&data, 1).unwrap();
    assert_eq!(object.data.len(), 1);
    match &object.data[0] {
        Tag::DescriptionLine(c) => {
            assert_eq!(c.length, 4);
            assert_eq!(c.data.description_line, b"ab".to_vec());
        }
        other => panic!("unexpected record {:?}", other),
    }
    assert_eq!(
        LightWaveObject::read_at(&data, 0),
        Err(DecodeError::MagicMismatch { pos: 0, expected: *b"FORM", actual: [0x99, b'F', b'O', b'R'] })
    );
    assert_eq!(LightWaveObject::read_at(&data, 99), Err(DecodeError::IoError { pos: 99 }));
}

#[test]
fn read_is_read_at_the_first_byte() {
    let data = file(&[chunk(b"PNTS", &floats(&[1.0, 2.0, 3.0]))]);
    assert_eq!(LightWaveObject::read(&data), LightWaveObject::read_at(&data, 0));
}

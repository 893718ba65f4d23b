use lwo::decode::Decode;
use lwo::error::DecodeError;
use lwo::iff::{frame_end, Chunk, SubChunk};
use lwo::lwo2::sub_tags::EnableState;
use lwo::lwo2::tags::image_clip::Flags;

#[test]
fn sub_record_of_odd_length_takes_its_pad_byte() {
    // Length 3; the payload's decoder reads two of the three bytes.
    let data = [0x00, 0x03, 0x00, 0x01, 0xaa, 0xbb, 0xcc];
    let (chunk, end) = SubChunk::<EnableState>::decode(&data, 0, ()).unwrap();
    assert_eq!(chunk.length, 3);
    assert_eq!(chunk.data, EnableState { enable: 1 });
    assert_eq!(end, 2 + 3 + 1);
}

#[test]
fn sub_record_is_bounded_when_the_payload_reads_too_much() {
    // Length 3; the payload's decoder reads four bytes.
    let data = [0x00, 0x03, 0x01, 0x02, 0x03, 0x04, 0xcc];
    let (chunk, end) = SubChunk::<Flags>::decode(&data, 0, ()).unwrap();
    assert_eq!(chunk.length, 3);
    assert_eq!(chunk.data, Flags { flag: 0x0102_0304 });
    assert_eq!(end, 6);
}

#[test]
fn sub_record_of_even_length_has_no_pad_byte() {
    let data = [0x00, 0x04, 0x00, 0x01, 0xaa, 0xbb, 0xcc];
    let (chunk, end) = SubChunk::<EnableState>::decode(&data, 0, ()).unwrap();
    assert_eq!(chunk.length, 4);
    assert_eq!(*chunk, EnableState { enable: 1 });
    assert_eq!(chunk.enable, 1);
    assert_eq!(end, 6);
}

#[test]
fn sub_record_pads_by_absolute_position() {
    // The payload begins at offset 3 and has length 3: it ends at the even
    // offset 6, and no pad byte is taken.
    let data = [0x99, 0x00, 0x03, 0x00, 0x01, 0xaa, 0xbb];
    let (_, end) = SubChunk::<EnableState>::decode(&data, 1, ()).unwrap();
    assert_eq!(end, 6);
    // At offset 4 a payload of length 2 ends at 6; of length 1 at 5, padded to 6.
    assert_eq!(frame_end(&data, 4, 2), Ok(6));
    assert_eq!(frame_end(&data, 4, 1), Ok(6));
    assert_eq!(frame_end(&data, 4, 0), Ok(4));
}

#[test]
fn chunk_has_a_four_byte_length() {
    let data = [0x00, 0x00, 0x00, 0x05, 0x00, 0x00, 0x00, 0x07, 0xaa, 0xbb, 0xcc];
    let (chunk, end) = Chunk::<Flags>::decode(&data, 0, ()).unwrap();
    assert_eq!(chunk.length, 5);
    assert_eq!(*chunk, Flags { flag: 7 });
    assert_eq!(chunk.flag, 7);
    assert_eq!(end, 4 + 5 + 1);
}

#[test]
fn frame_that_leaves_the_input_is_an_io_error() {
    // Length 10, but only four bytes of payload are there.
    let data = [0x00, 0x0a, 0x00, 0x01, 0xaa, 0xbb];
    assert_eq!(
        SubChunk::<EnableState>::decode(&data, 0, ()),
        Err(DecodeError::IoError { pos: 2 })
    );
    assert_eq!(frame_end(&data, 2, 10), Err(DecodeError::IoError { pos: 2 }));
}

#[test]
fn missing_pad_byte_is_an_io_error() {
    let data = [0x00, 0x03, 0x00, 0x01, 0xaa];
    assert_eq!(
        SubChunk::<EnableState>::decode(&data, 0, ()),
        Err(DecodeError::IoError { pos: 5 })
    );
}

#[test]
fn payload_error_comes_before_the_frame() {
    // The payload needs four bytes and finds two.
    let data = [0x00, 0x0a, 0x00, 0x01];
    assert_eq!(SubChunk::<Flags>::decode(&data, 0, ()), Err(DecodeError::IoError { pos: 2 }));
}

#[test]
fn missing_length_field_is_an_io_error() {
    assert_eq!(SubChunk::<Flags>::decode(&[0x00], 0, ()), Err(DecodeError::IoError { pos: 0 }));
    assert_eq!(Chunk::<Flags>::decode(&[0, 0, 0], 0, ()), Err(DecodeError::IoError { pos: 0 }));
}

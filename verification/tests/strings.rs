use lwo::decode::{read_aligned_null_string, read_null_string};
use lwo::error::DecodeError;
use lwo::helpers::{lwo_null_string, padded_bytes, padded_text};

#[test]
fn padded_string_with_interior_pad() {
    let data = [0x41, 0x42, 0x00, 0x00];
    assert_eq!(lwo_null_string(&data, 0), Ok((String::from("AB"), 4)));
}

#[test]
fn padded_string_terminated_at_even_position() {
    let data = [0x41, 0x00];
    assert_eq!(lwo_null_string(&data, 0), Ok((String::from("A"), 2)));
}

#[test]
fn padded_string_empty() {
    let data = [0x00, 0x00, 0x41];
    assert_eq!(lwo_null_string(&data, 0), Ok((String::new(), 2)));
}

#[test]
fn padded_string_parity_is_absolute() {
    // The same bytes as "A\0", one byte further on: the zero now leaves the
    // cursor at the odd position 3 and is passed over.
    let data = [0x99, 0x41, 0x00, 0x42, 0x00, 0x00];
    assert_eq!(lwo_null_string(&data, 1), Ok((String::from("AB"), 6)));
}

#[test]
fn padded_string_swallows_a_zero_at_an_odd_position() {
    let data = [0x00, 0x41, 0x42, 0x00];
    assert_eq!(lwo_null_string(&data, 0), Ok((String::from("AB"), 4)));
}

#[test]
fn padded_string_without_terminator() {
    let data = [0x41, 0x42, 0x43];
    assert_eq!(lwo_null_string(&data, 0), Err(DecodeError::IoError { pos: 3 }));
    let odd = [0x41, 0x42, 0x00];
    assert_eq!(lwo_null_string(&odd, 0), Err(DecodeError::IoError { pos: 3 }));
    assert_eq!(lwo_null_string(&odd, 7), Err(DecodeError::IoError { pos: 7 }));
}

#[test]
fn padded_string_that_is_not_text() {
    let data = [0x10, 0x11, 0xff, 0xfe, 0x00, 0x00];
    assert_eq!(lwo_null_string(&data, 2), Err(DecodeError::EncodingError { pos: 2 }));
}

#[test]
fn padded_string_of_several_bytes_per_character() {
    // "é" in UTF-8 is C3 A9.
    let data = [0xc3, 0xa9, 0x00, 0x00];
    assert_eq!(lwo_null_string(&data, 0), Ok((String::from("\u{e9}"), 4)));
}

#[test]
fn padded_bytes_are_kept_as_read() {
    let data = [0x41, 0xff, 0x00, 0x00];
    assert_eq!(padded_bytes(&data, 0), Ok((vec![0x41, 0xff], 4)));
}

#[test]
fn padded_text_names_the_start_of_the_string() {
    assert_eq!(padded_text(vec![0x68, 0x69], 40), Ok(String::from("hi")));
    assert_eq!(padded_text(vec![0x80], 40), Err(DecodeError::EncodingError { pos: 40 }));
    assert_eq!(padded_text(vec![], 40), Ok(String::new()));
}

#[test]
fn null_string_stops_at_the_first_zero() {
    let data = [0x61, 0x62, 0x00, 0x63];
    assert_eq!(read_null_string(&data, 0), Ok((vec![0x61, 0x62], 3)));
    assert_eq!(read_null_string(&data, 2), Ok((vec![], 3)));
    assert_eq!(read_null_string(&data, 3), Err(DecodeError::IoError { pos: 4 }));
}

#[test]
fn aligned_null_string_passes_the_pad_byte() {
    let data = [0x61, 0x62, 0x00, 0x00, 0x63];
    assert_eq!(read_aligned_null_string(&data, 0), Ok((vec![0x61, 0x62], 4)));
    let even = [0x61, 0x00, 0x63];
    assert_eq!(read_aligned_null_string(&even, 0), Ok((vec![0x61], 2)));
}

#[test]
fn aligned_null_string_needs_its_pad_byte() {
    let data = [0x61, 0x62, 0x00];
    assert_eq!(read_aligned_null_string(&data, 0), Err(DecodeError::IoError { pos: 3 }));
}

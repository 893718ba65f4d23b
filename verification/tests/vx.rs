use lwo::error::DecodeError;
use lwo::helpers::count_with_vx;
use lwo::lwo2::{vx, vx_if, VX_MAX};

#[test]
fn vx_two_byte_form() {
    assert_eq!(vx(&[0x00, 0x05], 0), Ok((5, 2)));
}

#[test]
fn vx_largest_two_byte_value() {
    assert_eq!(vx(&[0xfe, 0xff], 0), Ok((65279, 2)));
}

#[test]
fn vx_four_byte_form_of_a_small_value() {
    assert_eq!(vx(&[0xff, 0x00, 0x00, 0x0a], 0), Ok((10, 4)));
}

#[test]
fn vx_four_byte_form_above_sixteen_bits() {
    assert_eq!(vx(&[0xff, 0x01, 0x00, 0x01], 0), Ok((65537, 4)));
}

#[test]
fn vx_four_byte_form_of_the_largest_value() {
    assert_eq!(vx(&[0xff, 0xff, 0xff, 0xff], 0), Ok((VX_MAX, 4)));
    assert_eq!(VX_MAX, 16_777_215);
}

#[test]
fn vx_reads_at_the_cursor() {
    assert_eq!(vx(&[0xaa, 0xbb, 0x01, 0x02, 0xcc], 2), Ok((0x0102, 4)));
}

#[test]
fn vx_two_bytes_round_trip_for_every_value() {
    for k in 0u32..0xff00 {
        let bytes = [(k >> 8) as u8, (k & 0xff) as u8, 0x55, 0x55];
        assert_eq!(vx(&bytes, 0), Ok((k, 2)));
    }
}

#[test]
fn vx_four_bytes_round_trip() {
    let mut v: u32 = 0;
    while v <= 0x00ff_ffff {
        let bytes = [0xff, (v >> 16) as u8, ((v >> 8) & 0xff) as u8, (v & 0xff) as u8];
        assert_eq!(vx(&bytes, 0), Ok((v, 4)));
        v += 257;
    }
    let top = 0x00ff_ffffu32;
    assert_eq!(vx(&[0xff, (top >> 16) as u8, (top >> 8) as u8, top as u8], 0), Ok((top, 4)));
}

#[test]
fn vx_fails_on_a_missing_first_half() {
    assert_eq!(vx(&[0x00], 0), Err(DecodeError::IoError { pos: 0 }));
    assert_eq!(vx(&[], 0), Err(DecodeError::IoError { pos: 0 }));
    assert_eq!(vx(&[1, 2], 5), Err(DecodeError::IoError { pos: 5 }));
}

#[test]
fn vx_fails_on_a_missing_second_half() {
    assert_eq!(vx(&[0xff, 0x00, 0x01], 0), Err(DecodeError::IoError { pos: 2 }));
}

#[test]
fn vx_if_absent_is_zero_and_reads_nothing() {
    assert_eq!(vx_if(false, &[0x00, 0x05], 0), Ok((0, 0)));
    assert_eq!(vx_if(true, &[0x00, 0x05], 0), Ok((5, 2)));
}

#[test]
fn count_with_vx_mixes_both_forms() {
    let data = [0x00, 0x01, 0xff, 0x01, 0x00, 0x00, 0x00, 0x02, 0x99];
    assert_eq!(count_with_vx(&data, 0, 3), Ok((vec![1, 65536, 2], 8)));
    assert_eq!(count_with_vx(&data, 0, 0), Ok((vec![], 0)));
}

#[test]
fn count_with_vx_stops_on_the_first_error() {
    let data = [0x00, 0x01, 0x00];
    assert_eq!(count_with_vx(&data, 0, 2), Err(DecodeError::IoError { pos: 2 }));
}

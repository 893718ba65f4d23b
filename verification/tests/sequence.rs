use lwo::decode::{read_float, read_u32, Float};
use lwo::error::DecodeError;
use lwo::helpers::{count, until_eof, until_size_limit, until_size_limit_with};
use lwo::lwo2::sub_tags::blocks::texture_mapping::FalloffType;

fn sixteen() -> Vec<u8> {
    vec![0, 0, 0, 1, 0, 0, 0, 2, 0, 0, 0, 3, 0, 0, 0, 4]
}

#[test]
fn size_bounded_sequence_overshoots_its_limit() {
    let data = sixteen();
    let (items, end) = until_size_limit::<Float, ()>(&data, 0, 10, ()).unwrap();
    assert_eq!(items, vec![Float { bits: 1 }, Float { bits: 2 }, Float { bits: 3 }]);
    assert_eq!(end, 12);
}

#[test]
fn size_bounded_sequence_with_a_given_decoder() {
    let data = sixteen();
    let r = until_size_limit_with(&data, 0, 10, |d: &[u8], p: usize| read_u32(d, p));
    assert_eq!(r, Ok((vec![1, 2, 3], 12)));
}

#[test]
fn size_bounded_sequence_stops_on_an_exact_fit() {
    let data = sixteen();
    let r = until_size_limit_with(&data, 4, 8, |d: &[u8], p: usize| read_u32(d, p));
    assert_eq!(r, Ok((vec![2, 3], 12)));
    let (items, end) = until_size_limit::<Float, ()>(&data, 4, 8, ()).unwrap();
    assert_eq!(items.len(), 2);
    assert_eq!(end, 12);
}

#[test]
fn size_bounded_sequence_with_no_budget_is_empty() {
    let data = sixteen();
    let r = until_size_limit_with(&data, 4, 0, |d: &[u8], p: usize| read_float(d, p));
    assert_eq!(r, Ok((vec![], 4)));
    assert_eq!(until_size_limit::<Float, ()>(&data, 99, 0, ()), Ok((vec![], 99)));
}

#[test]
fn size_bounded_sequence_starts_an_element_on_one_byte_of_budget() {
    let data = sixteen();
    let r = until_size_limit_with(&data, 0, 1, |d: &[u8], p: usize| read_u32(d, p));
    assert_eq!(r, Ok((vec![1], 4)));
}

#[test]
fn size_bounded_sequence_fails_with_its_element() {
    let data = sixteen();
    let r = until_size_limit_with(&data, 8, 100, |d: &[u8], p: usize| read_u32(d, p));
    assert_eq!(r, Err(DecodeError::IoError { pos: 16 }));
    assert_eq!(
        until_size_limit::<Float, ()>(&data, 8, 100, ()),
        Err(DecodeError::IoError { pos: 16 })
    );
}

#[test]
fn counted_sequence_reads_as_many_as_asked() {
    let data = sixteen();
    assert_eq!(count::<u16, ()>(&data, 2, 3, ()), Ok((vec![1, 0, 2], 8)));
    assert_eq!(count::<u16, ()>(&data, 2, 0, ()), Ok((vec![], 2)));
    assert_eq!(count::<u16, ()>(&data, 12, 3, ()), Err(DecodeError::IoError { pos: 16 }));
}

#[test]
fn sequence_to_the_end_of_the_input() {
    let data = sixteen();
    let items = until_eof::<Float, ()>(&data, 8, ()).unwrap();
    assert_eq!(items, vec![Float { bits: 3 }, Float { bits: 4 }]);
    assert_eq!(until_eof::<Float, ()>(&data, 16, ()), Ok(vec![]));
    assert_eq!(until_eof::<Float, ()>(&data, 10, ()), Err(DecodeError::IoError { pos: 14 }));
}

#[test]
fn size_bounded_sequence_of_numbers_passes_an_odd_limit() {
    let data = [0x00, 0x01, 0x00, 0x02, 0x00, 0x03, 0x00, 0x04];
    assert_eq!(until_size_limit::<u16, ()>(&data, 0, 5, ()), Ok((vec![1, 2, 3], 6)));
}

#[test]
fn size_bounded_sequence_of_numbers_keeps_nothing_on_an_error() {
    let data = [0x00, 0x01, 0x00, 0x02, 0x00];
    assert_eq!(until_size_limit::<u16, ()>(&data, 0, 6, ()), Err(DecodeError::IoError { pos: 4 }));
}

#[test]
fn size_bounded_sequence_of_other_primitives() {
    let data = [0xff, 0xfe, 0x00, 0x01, 0x80, 0x00, 0x00, 0x00];
    assert_eq!(until_size_limit::<u8, ()>(&data, 0, 2, ()), Ok((vec![0xff, 0xfe], 2)));
    assert_eq!(until_size_limit::<i16, ()>(&data, 0, 3, ()), Ok((vec![-2, 1], 4)));
    assert_eq!(until_size_limit::<u32, ()>(&data, 0, 5, ()), Ok((vec![0xfffe_0001, 0x8000_0000], 8)));
    assert_eq!(until_size_limit::<i32, ()>(&data, 4, 1, ()), Ok((vec![i32::MIN], 8)));
}

#[test]
fn size_bounded_sequence_of_enumerations() {
    let data = [0x00, 0x02, 0x00, 0x05, 0x00, 0x09];
    assert_eq!(
        until_size_limit::<FalloffType, ()>(&data, 0, 4, ()),
        Err(DecodeError::UnrecognizedTag { pos: 2, tag: [0, 0, 0, 5] })
    );
    assert_eq!(
        until_size_limit::<FalloffType, ()>(&data, 0, 2, ()),
        Ok((vec![FalloffType::LinearX], 2))
    );
}

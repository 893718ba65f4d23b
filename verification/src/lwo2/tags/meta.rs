use crate::decode::{
    code_tag, Decode, Decoded, Element, Parsed, read_aligned_null_string, read_bytes, read_u16,
    spec_aligned_null_string, spec_bytes, spec_u16, unrecognized_code,
};
use crate::error::DecodeError;
use vstd::prelude::*;

verus! {

/// A line of text about the object.
#[derive(Debug, PartialEq, Eq)]
pub struct DescriptionLine {
    pub description_line: Vec<u8>,
}

pub struct DescriptionLineView {
    pub description_line: Seq<u8>,
}

impl View for DescriptionLine {
    type V = DescriptionLineView;

    open spec fn view(&self) -> DescriptionLineView {
        DescriptionLineView { description_line: self.description_line@ }
    }
}

impl Decode<u32> for DescriptionLine {
    open spec fn spec_decode(s: Seq<u8>, pos: int, _length: u32) -> Parsed<DescriptionLineView> {
        match spec_aligned_null_string(s, pos) {
            Err(e) => Err(e),
            Ok((description_line, end)) => Ok((DescriptionLineView { description_line }, end)),
        }
    }

    fn decode(data: &[u8], pos: usize, _length: u32) -> (r: Decoded<DescriptionLine>) {
        let (description_line, end) = read_aligned_null_string(data, pos)?;
        Ok((DescriptionLine { description_line }, end))
    }
}

/// A small picture of the object.
#[derive(Debug, PartialEq, Eq)]
pub struct ThumbnailIconImage {
    pub encoding: ThumbnailImageEncoding,
    /// The number of pixels in a row.
    pub width: u16,
    /// The number of rows, computed from the low sixteen bits of the declared
    /// length.
    pub height: u16,
    /// The pixels, row by row.
    pub data: Vec<u8>,
}

pub struct ThumbnailIconImageView {
    pub encoding: ThumbnailImageEncoding,
    pub width: u16,
    pub height: u16,
    pub data: Seq<u8>,
}

impl View for ThumbnailIconImage {
    type V = ThumbnailIconImageView;

    open spec fn view(&self) -> ThumbnailIconImageView {
        ThumbnailIconImageView {
            encoding: self.encoding,
            width: self.width,
            height: self.height,
            data: self.data@,
        }
    }
}

impl Decode<u32> for ThumbnailIconImage {
    /// The declared length and its low sixteen bits have to be four at least,
    /// for the encoding and the width, and the width must not be zero. The
    /// pixels take what is left of the declared length.
    open spec fn spec_decode(s: Seq<u8>, pos: int, length: u32) -> Parsed<ThumbnailIconImageView> {
        match ThumbnailImageEncoding::spec_decode(s, pos, ()) {
            Err(e) => Err(e),
            Ok((encoding, p1)) => match spec_u16(s, p1) {
                Err(e) => Err(e),
                Ok((width, p2)) => if length < 4 || length % 0x1_0000 < 4 || width == 0 {
                    Err(DecodeError::StructuralAssertion { pos: pos as u64 })
                } else {
                    match spec_bytes(s, p2, length - 4) {
                        Err(e) => Err(e),
                        Ok((data, end)) => Ok((ThumbnailIconImageView {
                            encoding,
                            width,
                            height: (((length % 0x1_0000) - 4) / (width as int)) as u16,
                            data,
                        }, end)),
                    }
                },
            },
        }
    }

    fn decode(data: &[u8], pos: usize, length: u32) -> (r: Decoded<ThumbnailIconImage>) {
        let (encoding, p1) = ThumbnailImageEncoding::decode(data, pos, ())?;
        let (width, p2) = read_u16(data, p1)?;
        if length < 4 || length % 0x1_0000 < 4 || width == 0 {
            return Err(DecodeError::StructuralAssertion { pos: pos as u64 });
        }
        let (data, end) = read_bytes(data, p2, (length - 4) as u64)?;
        Ok((ThumbnailIconImage {
            encoding,
            width,
            height: ((length % 0x1_0000) as u16 - 4) / width,
            data,
        }, end))
    }
}

/// How the pixels of a thumbnail are stored.
#[derive(Debug, Clone, Copy, PartialEq, Eq)]
pub enum ThumbnailImageEncoding {
    /// Three bytes for each pixel: red, green and blue.
    UncompressedRgb,
}

impl View for ThumbnailImageEncoding {
    type V = ThumbnailImageEncoding;

    open spec fn view(&self) -> ThumbnailImageEncoding {
        *self
    }
}

impl ThumbnailImageEncoding {
    /// The variant that the number `code` stands for, if there is one.
    pub open spec fn spec_from_code(code: u16) -> Option<ThumbnailImageEncoding> {
        if code == 0 {
            Some(ThumbnailImageEncoding::UncompressedRgb)
        } else {
            None
        }
    }

    /// Looks up the variant that the number `code` stands for.
    pub fn from_code(code: u16) -> (r: Option<ThumbnailImageEncoding>)
        ensures
            r == Self::spec_from_code(code),
    {
        if code == 0 {
            Some(ThumbnailImageEncoding::UncompressedRgb)
        } else {
            None
        }
    }
}

impl Decode<()> for ThumbnailImageEncoding {
    open spec fn spec_decode(s: Seq<u8>, pos: int, _args: ()) -> Parsed<ThumbnailImageEncoding> {
        match spec_u16(s, pos) {
            Err(e) => Err(e),
            Ok((code, end)) => match ThumbnailImageEncoding::spec_from_code(code) {
                Some(v) => Ok((v, end)),
                None => Err(unrecognized_code(pos, code as u32)),
            },
        }
    }

    fn decode(data: &[u8], pos: usize, _args: ()) -> (r: Decoded<ThumbnailImageEncoding>) {
        let (code, end) = read_u16(data, pos)?;
        match ThumbnailImageEncoding::from_code(code) {
            Some(v) => Ok((v, end)),
            None =>
                Err(DecodeError::UnrecognizedTag { pos: pos as u64, tag: code_tag(code as u32) }),
        }
    }
}

impl Element<()> for ThumbnailImageEncoding {
    proof fn lemma_advances(s: Seq<u8>, pos: int, _args: ()) {
    }
}

} // verus!

pub mod decode;
pub mod error;
pub mod helpers;
pub mod iff;
pub mod lwo2;

use crate::decode::{ascii, available, read_magic, read_u32, spec_magic, spec_u32, views};
use crate::error::DecodeError;
use crate::helpers::{spec_until_eof, until_eof};
use crate::lwo2::tags::{is_top_level_tag, lemma_unrecognized_tag, Tag, TagView};
use vstd::prelude::*;

verus! {

/// A decoded object file. The file holds the points, polygons and surfaces
/// that describe the shape and the look of an object, in one or more
/// layers. It begins with the container marker `FORM`, the length of what
/// follows the first eight bytes, and the format marker `LWO2`; the rest is a
/// sequence of top-level records, each with a four-byte tag, a four-byte
/// length, a payload of that length and a pad byte where the length is odd.
///
/// The order of the records matters: a record may refer to the most recent
/// point list or polygon list before it.
#[derive(Debug, PartialEq, Eq)]
pub struct LightWaveObject {
    /// The length that the file declares for itself, taken as it is read.
    pub file_size: u32,
    /// The top-level records in the order of the file.
    pub data: Vec<Tag>,
}

pub struct LightWaveObjectView {
    pub file_size: u32,
    pub data: Seq<TagView>,
}

impl View for LightWaveObject {
    type V = LightWaveObjectView;

    open spec fn view(&self) -> LightWaveObjectView {
        LightWaveObjectView { file_size: self.file_size, data: views(self.data@) }
    }
}

/// The object that the input `s` holds from the position `pos` on, or the
/// error on which its decoding stops. The two markers have to stand at `pos`
/// and eight bytes after it; top-level records are decoded from twelve bytes
/// after `pos` on until the input is exhausted, and the first error of any
/// of them is the error of the whole. Padding and the ends of strings go by
/// the absolute positions in `s`.
pub open spec fn spec_read_at(s: Seq<u8>, pos: int) -> Result<LightWaveObjectView, DecodeError> {
    match spec_magic(s, pos, ascii('F', 'O', 'R', 'M')) {
        Err(e) => Err(e),
        Ok(p1) => match spec_u32(s, p1) {
            Err(e) => Err(e),
            Ok((file_size, p2)) => match spec_magic(s, p2, ascii('L', 'W', 'O', '2')) {
                Err(e) => Err(e),
                Ok(p3) => match spec_until_eof::<Tag, ()>(s, p3, ()) {
                    Err(e) => Err(e),
                    Ok(data) => Ok(LightWaveObjectView { file_size, data }),
                },
            },
        },
    }
}

/// The object that the input `s` holds from its first byte on.
pub open spec fn spec_read(s: Seq<u8>) -> Result<LightWaveObjectView, DecodeError> {
    spec_read_at(s, 0)
}

/// A file whose markers are in place and whose first record bears a tag
/// that is none of the top-level tags does not decode: the error names the
/// offset of that tag, twelve, and its four bytes.
pub proof fn lemma_unrecognized_first_record(s: Seq<u8>)
    requires
        spec_magic(s, 0, ascii('F', 'O', 'R', 'M')) is Ok,
        spec_magic(s, 8, ascii('L', 'W', 'O', '2')) is Ok,
        available(s, 12, 4),
        !is_top_level_tag([s[12], s[13], s[14], s[15]]),
    ensures
        spec_read(s) == Err::<LightWaveObjectView, DecodeError>(
            DecodeError::UnrecognizedTag { pos: 12, tag: [s[12], s[13], s[14], s[15]] },
        ),
{
    lemma_unrecognized_tag(s, 12);
}

impl LightWaveObject {
    /// Decodes the object file that `data` holds from its first byte to its last.
    pub fn read(data: &[u8]) -> (r: Result<LightWaveObject, DecodeError>)
        ensures
            match r {
                Ok(object) => spec_read(data@) == Ok::<LightWaveObjectView, DecodeError>(object@),
                Err(e) => spec_read(data@) == Err::<LightWaveObjectView, DecodeError>(e),
            },
    {
        LightWaveObject::read_at(data, 0)
    }

    /// Decodes the object file that `data` holds from the position `pos` to
    /// its last byte. The bytes before `pos` are not read; they only fix the
    /// offsets, by which padding goes.
    pub fn read_at(data: &[u8], pos: usize) -> (r: Result<LightWaveObject, DecodeError>)
        ensures
            match r {
                Ok(object) => spec_read_at(data@, pos as int) == Ok::<
                    LightWaveObjectView,
                    DecodeError,
                >(object@),
                Err(e) => spec_read_at(data@, pos as int) == Err::<
                    LightWaveObjectView,
                    DecodeError,
                >(e),
            },
    {
        let p1 = read_magic(data, pos, ascii('F', 'O', 'R', 'M'))?;
        let (file_size, p2) = read_u32(data, p1)?;
        let p3 = read_magic(data, p2, ascii('L', 'W', 'O', '2'))?;
        let records = until_eof::<Tag, ()>(data, p3, ())?;
        Ok(LightWaveObject { file_size, data: records })
    }
}

} // verus!

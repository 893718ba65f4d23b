use crate::decode::{
    code_tag, Decode, Decoded, Element, Parsed, read_i32, read_u32, spec_i32, spec_u32,
    unrecognized_code,
};
use crate::error::DecodeError;
use vstd::prelude::*;

verus! {

/// Parameters of the most recent vertex map.
#[derive(Debug, Clone, Copy, PartialEq, Eq)]
pub struct VertexMapParameter {
    pub uv_subdivision_type: UvSubdivisionType,
    pub sketch_color: i32,
}

impl View for VertexMapParameter {
    type V = VertexMapParameter;

    open spec fn view(&self) -> VertexMapParameter {
        *self
    }
}

impl Decode<u32> for VertexMapParameter {
    open spec fn spec_decode(s: Seq<u8>, pos: int, _length: u32) -> Parsed<VertexMapParameter> {
        match UvSubdivisionType::spec_decode(s, pos, ()) {
            Err(e) => Err(e),
            Ok((uv_subdivision_type, p1)) => match spec_i32(s, p1) {
                Err(e) => Err(e),
                Ok((sketch_color, end)) =>
                    Ok((VertexMapParameter { uv_subdivision_type, sketch_color }, end)),
            },
        }
    }

    fn decode(data: &[u8], pos: usize, _length: u32) -> (r: Decoded<VertexMapParameter>) {
        let (uv_subdivision_type, p1) = UvSubdivisionType::decode(data, pos, ())?;
        let (sketch_color, end) = read_i32(data, p1)?;
        Ok((VertexMapParameter { uv_subdivision_type, sketch_color }, end))
    }
}

/// How texture coordinates are interpolated on subdivided polygons.
#[derive(Debug, Clone, Copy, PartialEq, Eq)]
pub enum UvSubdivisionType {
    Linear,
    Subpatch,
    SubpatchLinearCorners,
    SubpatchLinearEdges,
    SubpatchDiscoEdges,
}

impl View for UvSubdivisionType {
    type V = UvSubdivisionType;

    open spec fn view(&self) -> UvSubdivisionType {
        *self
    }
}

impl UvSubdivisionType {
    /// The variant that the number `code` stands for, if there is one.
    pub open spec fn spec_from_code(code: u32) -> Option<UvSubdivisionType> {
        if code == 0 {
            Some(UvSubdivisionType::Linear)
        } else if code == 1 {
            Some(UvSubdivisionType::Subpatch)
        } else if code == 2 {
            Some(UvSubdivisionType::SubpatchLinearCorners)
        } else if code == 3 {
            Some(UvSubdivisionType::SubpatchLinearEdges)
        } else if code == 4 {
            Some(UvSubdivisionType::SubpatchDiscoEdges)
        } else {
            None
        }
    }

    /// Looks up the variant that the number `code` stands for.
    pub fn from_code(code: u32) -> (r: Option<UvSubdivisionType>)
        ensures
            r == Self::spec_from_code(code),
    {
        if code == 0 {
            Some(UvSubdivisionType::Linear)
        } else if code == 1 {
            Some(UvSubdivisionType::Subpatch)
        } else if code == 2 {
            Some(UvSubdivisionType::SubpatchLinearCorners)
        } else if code == 3 {
            Some(UvSubdivisionType::SubpatchLinearEdges)
        } else if code == 4 {
            Some(UvSubdivisionType::SubpatchDiscoEdges)
        } else {
            None
        }
    }
}

impl Decode<()> for UvSubdivisionType {
    open spec fn spec_decode(s: Seq<u8>, pos: int, _args: ()) -> Parsed<UvSubdivisionType> {
        match spec_u32(s, pos) {
            Err(e) => Err(e),
            Ok((code, end)) => match UvSubdivisionType::spec_from_code(code) {
                Some(v) => Ok((v, end)),
                None => Err(unrecognized_code(pos, code)),
            },
        }
    }

    fn decode(data: &[u8], pos: usize, _args: ()) -> (r: Decoded<UvSubdivisionType>) {
        let (code, end) = read_u32(data, pos)?;
        match UvSubdivisionType::from_code(code) {
            Some(v) => Ok((v, end)),
            None => Err(DecodeError::UnrecognizedTag { pos: pos as u64, tag: code_tag(code) }),
        }
    }
}

impl Element<()> for UvSubdivisionType {
    proof fn lemma_advances(s: Seq<u8>, pos: int, _args: ()) {
    }
}

} // verus!

use crate::decode::{
    Decode, Decoded, Element, Parsed, read_tag, read_u16, spec_tag, spec_u16, views,
};
use crate::error::DecodeError;
use crate::helpers::{spec_until_size_limit, until_size_limit};
use crate::lwo2::{spec_vx, vx};
use vstd::prelude::*;

verus! {

/// Tags of one kind for the polygons of the most recent polygon list. A
/// polygon that the record does not name has no tag of that kind.
#[derive(Debug, PartialEq, Eq)]
pub struct PolygonTagMappings {
    /// The kind of the tags, such as `SURF`, `PART` or `SMGP`.
    pub kind: [u8; 4],
    pub mappings: Vec<PolygonTagMapping>,
}

pub struct PolygonTagMappingsView {
    pub kind: [u8; 4],
    pub mappings: Seq<PolygonTagMapping>,
}

impl View for PolygonTagMappings {
    type V = PolygonTagMappingsView;

    open spec fn view(&self) -> PolygonTagMappingsView {
        PolygonTagMappingsView { kind: self.kind, mappings: views(self.mappings@) }
    }
}

impl Decode<u32> for PolygonTagMappings {
    /// The declared length has to hold the kind; what is left of it is the
    /// budget of the entries.
    open spec fn spec_decode(s: Seq<u8>, pos: int, length: u32) -> Parsed<PolygonTagMappingsView> {
        match spec_tag(s, pos) {
            Err(e) => Err(e),
            Ok((kind, p1)) => if length < 4 {
                Err(DecodeError::StructuralAssertion { pos: pos as u64 })
            } else {
                match spec_until_size_limit::<PolygonTagMapping, ()>(s, p1, length - 4, ()) {
                    Err(e) => Err(e),
                    Ok((mappings, end)) => Ok((PolygonTagMappingsView { kind, mappings }, end)),
                }
            },
        }
    }

    fn decode(data: &[u8], pos: usize, length: u32) -> (r: Decoded<PolygonTagMappings>) {
        let (kind, p1) = read_tag(data, pos)?;
        if length < 4 {
            return Err(DecodeError::StructuralAssertion { pos: pos as u64 });
        }
        let (mappings, end) = until_size_limit::<PolygonTagMapping, ()>(
            data,
            p1,
            (length - 4) as u64,
            (),
        )?;
        Ok((PolygonTagMappings { kind, mappings }, end))
    }
}

/// One entry: a polygon and its tag.
#[derive(Debug, Clone, Copy, PartialEq, Eq)]
pub struct PolygonTagMapping {
    /// The index of the polygon.
    pub poly: u32,
    /// The tag; for a surface or part, the number of a string of the tag
    /// strings.
    pub tag: u16,
}

impl View for PolygonTagMapping {
    type V = PolygonTagMapping;

    open spec fn view(&self) -> PolygonTagMapping {
        *self
    }
}

impl Decode<()> for PolygonTagMapping {
    open spec fn spec_decode(s: Seq<u8>, pos: int, _args: ()) -> Parsed<PolygonTagMapping> {
        match spec_vx(s, pos) {
            Err(e) => Err(e),
            Ok((poly, p1)) => match spec_u16(s, p1) {
                Err(e) => Err(e),
                Ok((tag, end)) => Ok((PolygonTagMapping { poly, tag }, end)),
            },
        }
    }

    fn decode(data: &[u8], pos: usize, _args: ()) -> (r: Decoded<PolygonTagMapping>) {
        let (poly, p1) = vx(data, pos)?;
        let (tag, end) = read_u16(data, p1)?;
        Ok((PolygonTagMapping { poly, tag }, end))
    }
}

impl Element<()> for PolygonTagMapping {
    proof fn lemma_advances(s: Seq<u8>, pos: int, _args: ()) {
    }
}

} // verus!

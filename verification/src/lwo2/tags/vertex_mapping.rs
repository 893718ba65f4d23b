use crate::decode::{
    Decode, Decoded, Element, Float, Parsed, read_tag, read_u16, spec_tag, spec_u16, views,
};
use crate::error::DecodeError;
use crate::helpers::{
    count, lemma_count_bounds, lwo_null_string, spec_count, spec_lwo_null_string,
    spec_until_size_limit, until_size_limit,
};
use crate::lwo2::{spec_vx, vx};
use vstd::prelude::*;

verus! {

/// A vertex map: a named set of vectors, each tied to a point of the most
/// recent point list. Points that the map does not name have no value.
#[derive(Debug, PartialEq, Eq)]
pub struct VertexMappings {
    /// The kind of the map, such as `TXUV`, `WGHT` or `RGBA`.
    pub kind: [u8; 4],
    pub name: String,
    pub mapping: Vec<VertexMapping>,
}

pub struct VertexMappingsView {
    pub kind: [u8; 4],
    pub name: Seq<char>,
    pub mapping: Seq<VertexMappingView>,
}

impl View for VertexMappings {
    type V = VertexMappingsView;

    open spec fn view(&self) -> VertexMappingsView {
        VertexMappingsView {
            kind: self.kind,
            name: self.name@,
            mapping: views(self.mapping@),
        }
    }
}

impl Decode<u32> for VertexMappings {
    /// After the kind comes the dimension, the number of components of each
    /// vector, and the name. They have to fit in the declared length; what is
    /// left of it is the budget of the entries.
    open spec fn spec_decode(s: Seq<u8>, pos: int, length: u32) -> Parsed<VertexMappingsView> {
        match spec_tag(s, pos) {
            Err(e) => Err(e),
            Ok((kind, p1)) => match spec_u16(s, p1) {
                Err(e) => Err(e),
                Ok((dimension, p2)) => match spec_lwo_null_string(s, p2) {
                    Err(e) => Err(e),
                    Ok((name, p3)) => if length < p3 - pos {
                        Err(DecodeError::StructuralAssertion { pos: pos as u64 })
                    } else {
                        match spec_until_size_limit::<VertexMapping, u16>(
                            s,
                            p3,
                            length - (p3 - pos),
                            dimension,
                        ) {
                            Err(e) => Err(e),
                            Ok((mapping, end)) =>
                                Ok((VertexMappingsView { kind, name, mapping }, end)),
                        }
                    },
                },
            },
        }
    }

    fn decode(data: &[u8], pos: usize, length: u32) -> (r: Decoded<VertexMappings>) {
        let (kind, p1) = read_tag(data, pos)?;
        let (dimension, p2) = read_u16(data, p1)?;
        let (name, p3) = lwo_null_string(data, p2)?;
        if (length as u64) < (p3 - pos) as u64 {
            return Err(DecodeError::StructuralAssertion { pos: pos as u64 });
        }
        let (mapping, end) = until_size_limit::<VertexMapping, u16>(
            data,
            p3,
            length as u64 - (p3 - pos) as u64,
            dimension,
        )?;
        Ok((VertexMappings { kind, name, mapping }, end))
    }
}

/// One entry of a vertex map: a point and its vector.
#[derive(Debug, PartialEq, Eq)]
pub struct VertexMapping {
    /// The index of the point.
    pub vert: u32,
    pub value: Vec<Float>,
}

pub struct VertexMappingView {
    pub vert: u32,
    pub value: Seq<Float>,
}

impl View for VertexMapping {
    type V = VertexMappingView;

    open spec fn view(&self) -> VertexMappingView {
        VertexMappingView { vert: self.vert, value: self.value@ }
    }
}

impl Decode<u16> for VertexMapping {
    open spec fn spec_decode(s: Seq<u8>, pos: int, dimension: u16) -> Parsed<VertexMappingView> {
        match spec_vx(s, pos) {
            Err(e) => Err(e),
            Ok((vert, p1)) => match spec_count::<Float, ()>(s, p1, (dimension) as nat, ()) {
                Err(e) => Err(e),
                Ok((value, end)) => Ok((VertexMappingView { vert, value }, end)),
            },
        }
    }

    fn decode(data: &[u8], pos: usize, dimension: u16) -> (r: Decoded<VertexMapping>) {
        let (vert, p1) = vx(data, pos)?;
        let (value, end) = count::<Float, ()>(data, p1, dimension as u64, ())?;
        assert(views(value@) =~= value@);
        Ok((VertexMapping { vert, value }, end))
    }
}

impl Element<u16> for VertexMapping {
    proof fn lemma_advances(s: Seq<u8>, pos: int, dimension: u16) {
        match spec_vx(s, pos) {
            Err(_) => {},
            Ok((_, p1)) => {
                lemma_count_bounds::<Float, ()>(s, p1, dimension as nat, ());
            },
        }
    }
}

} // verus!

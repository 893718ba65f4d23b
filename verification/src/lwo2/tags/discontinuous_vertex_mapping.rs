use crate::decode::{
    Decode, Decoded, Element, Float, Parsed, read_aligned_null_string, read_tag, read_u16,
    spec_aligned_null_string, spec_tag, spec_u16, views,
};
use crate::error::DecodeError;
use crate::helpers::{
    count, lemma_count_bounds, spec_count, spec_until_size_limit, until_size_limit,
};
use crate::lwo2::{spec_vx, vx};
use vstd::prelude::*;

verus! {

/// A discontinuous vertex map: a named set of vectors, each tied to a point
/// as it is seen from one polygon, so that a point can have different values
/// on the polygons that share it.
#[derive(Debug, PartialEq, Eq)]
pub struct DiscontinuousVertexMappings {
    /// The kind of the map, such as `TXUV`.
    pub kind: [u8; 4],
    pub name: Vec<u8>,
    pub mappings: Vec<DiscontinuousVertexMapping>,
}

pub struct DiscontinuousVertexMappingsView {
    pub kind: [u8; 4],
    pub name: Seq<u8>,
    pub mappings: Seq<DiscontinuousVertexMappingView>,
}

impl View for DiscontinuousVertexMappings {
    type V = DiscontinuousVertexMappingsView;

    open spec fn view(&self) -> DiscontinuousVertexMappingsView {
        DiscontinuousVertexMappingsView {
            kind: self.kind,
            name: self.name@,
            mappings: views(self.mappings@),
        }
    }
}

impl Decode<u32> for DiscontinuousVertexMappings {
    /// After the kind comes the dimension, the number of components of each
    /// vector, and the name. They have to fit in the declared length; what is
    /// left of it is the budget of the entries.
    open spec fn spec_decode(s: Seq<u8>, pos: int, length: u32) -> Parsed<
        DiscontinuousVertexMappingsView,
    > {
        match spec_tag(s, pos) {
            Err(e) => Err(e),
            Ok((kind, p1)) => match spec_u16(s, p1) {
                Err(e) => Err(e),
                Ok((dimension, p2)) => match spec_aligned_null_string(s, p2) {
                    Err(e) => Err(e),
                    Ok((name, p3)) => if length < p3 - pos {
                        Err(DecodeError::StructuralAssertion { pos: pos as u64 })
                    } else {
                        match spec_until_size_limit::<DiscontinuousVertexMapping, u16>(
                            s,
                            p3,
                            length - (p3 - pos),
                            dimension,
                        ) {
                            Err(e) => Err(e),
                            Ok((mappings, end)) =>
                                Ok((DiscontinuousVertexMappingsView { kind, name, mappings }, end)),
                        }
                    },
                },
            },
        }
    }

    fn decode(data: &[u8], pos: usize, length: u32) -> (r: Decoded<DiscontinuousVertexMappings>) {
        let (kind, p1) = read_tag(data, pos)?;
        let (dimension, p2) = read_u16(data, p1)?;
        let (name, p3) = read_aligned_null_string(data, p2)?;
        if (length as u64) < (p3 - pos) as u64 {
            return Err(DecodeError::StructuralAssertion { pos: pos as u64 });
        }
        let (mappings, end) = until_size_limit::<DiscontinuousVertexMapping, u16>(
            data,
            p3,
            length as u64 - (p3 - pos) as u64,
            dimension,
        )?;
        Ok((DiscontinuousVertexMappings { kind, name, mappings }, end))
    }
}

/// One entry of a discontinuous vertex map: a point, a polygon and the vector
/// of the point on that polygon.
#[derive(Debug, PartialEq, Eq)]
pub struct DiscontinuousVertexMapping {
    /// The index of the point.
    pub vert: u32,
    /// The index of the polygon.
    pub poly: u32,
    pub values: Vec<Float>,
}

pub struct DiscontinuousVertexMappingView {
    pub vert: u32,
    pub poly: u32,
    pub values: Seq<Float>,
}

impl View for DiscontinuousVertexMapping {
    type V = DiscontinuousVertexMappingView;

    open spec fn view(&self) -> DiscontinuousVertexMappingView {
        DiscontinuousVertexMappingView {
            vert: self.vert,
            poly: self.poly,
            values: self.values@,
        }
    }
}

impl Decode<u16> for DiscontinuousVertexMapping {
    open spec fn spec_decode(s: Seq<u8>, pos: int, dimension: u16) -> Parsed<
        DiscontinuousVertexMappingView,
    > {
        match spec_vx(s, pos) {
            Err(e) => Err(e),
            Ok((vert, p1)) => match spec_vx(s, p1) {
                Err(e) => Err(e),
                Ok((poly, p2)) => match spec_count::<Float, ()>(s, p2, (dimension) as nat, ()) {
                    Err(e) => Err(e),
                    Ok((values, end)) =>
                        Ok((DiscontinuousVertexMappingView { vert, poly, values }, end)),
                },
            },
        }
    }

    fn decode(data: &[u8], pos: usize, dimension: u16) -> (r: Decoded<DiscontinuousVertexMapping>) {
        let (vert, p1) = vx(data, pos)?;
        let (poly, p2) = vx(data, p1)?;
        let (values, end) = count::<Float, ()>(data, p2, dimension as u64, ())?;
        assert(views(values@) =~= values@);
        Ok((DiscontinuousVertexMapping { vert, poly, values }, end))
    }
}

impl Element<u16> for DiscontinuousVertexMapping {
    proof fn lemma_advances(s: Seq<u8>, pos: int, dimension: u16) {
        match spec_vx(s, pos) {
            Err(_) => {},
            Ok((_, p1)) => match spec_vx(s, p1) {
                Err(_) => {},
                Ok((_, p2)) => {
                    lemma_count_bounds::<Float, ()>(s, p2, dimension as nat, ());
                },
            },
        }
    }
}

} // verus!

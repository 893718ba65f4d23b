use crate::decode::{Decode, Decoded, Parsed, views};
use crate::error::DecodeError;
use crate::helpers::{
    lwo_null_string, spec_lwo_null_string, spec_until_size_limit, until_size_limit,
};
use crate::lwo2::sub_tags::surface_parameters::{
    SurfaceParameterSubChunk, SurfaceParameterSubChunkView,
};
use vstd::prelude::*;

verus! {

/// A surface: its name, the name of the surface from which it takes what it
/// does not set itself, and its attributes.
#[derive(Debug, PartialEq, Eq)]
pub struct SurfaceDefinition {
    pub name: String,
    /// The name of the parent surface, empty where there is none.
    pub source: String,
    pub attributes: Vec<SurfaceParameterSubChunk>,
}

pub struct SurfaceDefinitionView {
    pub name: Seq<char>,
    pub source: Seq<char>,
    pub attributes: Seq<SurfaceParameterSubChunkView>,
}

impl View for SurfaceDefinition {
    type V = SurfaceDefinitionView;

    open spec fn view(&self) -> SurfaceDefinitionView {
        SurfaceDefinitionView {
            name: self.name@,
            source: self.source@,
            attributes: views(self.attributes@),
        }
    }
}

impl Decode<u32> for SurfaceDefinition {
    /// The two names have to fit in the declared length; what is left of it
    /// is the budget of the attributes.
    open spec fn spec_decode(s: Seq<u8>, pos: int, length: u32) -> Parsed<SurfaceDefinitionView> {
        match spec_lwo_null_string(s, pos) {
            Err(e) => Err(e),
            Ok((name, p1)) => match spec_lwo_null_string(s, p1) {
                Err(e) => Err(e),
                Ok((source, p2)) => if length < p2 - pos {
                    Err(DecodeError::StructuralAssertion { pos: pos as u64 })
                } else {
                    match spec_until_size_limit::<SurfaceParameterSubChunk, ()>(
                        s,
                        p2,
                        length - (p2 - pos),
                        (),
                    ) {
                        Err(e) => Err(e),
                        Ok((attributes, end)) =>
                            Ok((SurfaceDefinitionView { name, source, attributes }, end)),
                    }
                },
            },
        }
    }

    fn decode(data: &[u8], pos: usize, length: u32) -> (r: Decoded<SurfaceDefinition>) {
        let (name, p1) = lwo_null_string(data, pos)?;
        let (source, p2) = lwo_null_string(data, p1)?;
        if (length as u64) < (p2 - pos) as u64 {
            return Err(DecodeError::StructuralAssertion { pos: pos as u64 });
        }
        let (attributes, end) = until_size_limit::<SurfaceParameterSubChunk, ()>(
            data,
            p2,
            length as u64 - (p2 - pos) as u64,
            (),
        )?;
        Ok((SurfaceDefinition { name, source, attributes }, end))
    }
}

} // verus!

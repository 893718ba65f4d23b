use crate::decode::{Decode, Decoded, Float, Parsed, read_vec3, spec_vec3};
use vstd::prelude::*;

verus! {

/// The box that holds all points of a layer, given by two opposite corners.
#[derive(Debug, Clone, Copy, PartialEq, Eq)]
pub struct BoundingBox {
    /// The corner with the smallest coordinates.
    pub min: [Float; 3],
    /// The corner with the largest coordinates.
    pub max: [Float; 3],
}

impl View for BoundingBox {
    type V = BoundingBox;

    open spec fn view(&self) -> BoundingBox {
        *self
    }
}

impl Decode<u32> for BoundingBox {
    open spec fn spec_decode(s: Seq<u8>, pos: int, _length: u32) -> Parsed<BoundingBox> {
        match spec_vec3(s, pos) {
            Err(e) => Err(e),
            Ok((min, p1)) => match spec_vec3(s, p1) {
                Err(e) => Err(e),
                Ok((max, end)) => Ok((BoundingBox { min, max }, end)),
            },
        }
    }

    fn decode(data: &[u8], pos: usize, _length: u32) -> (r: Decoded<BoundingBox>) {
        let (min, p1) = read_vec3(data, pos)?;
        let (max, end) = read_vec3(data, p1)?;
        Ok((BoundingBox { min, max }, end))
    }
}

} // verus!

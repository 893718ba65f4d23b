use crate::decode::{
    Decode, Decoded, Float, Parsed, read_aligned_null_string, read_u16, read_u16_if, read_vec3,
    spec_aligned_null_string, spec_u16, spec_u16_if, spec_vec3,
};
use vstd::prelude::*;

verus! {

/// The start of a layer. The records that follow, up to the next layer,
/// belong to it.
#[derive(Debug, PartialEq, Eq)]
pub struct Layer {
    /// The number of the layer.
    pub number: u16,
    /// Bit 0 hides the layer.
    pub flags: u16,
    /// The point about which the layer rotates.
    pub pivot: [Float; 3],
    pub name: Vec<u8>,
    /// The offset in the input at which the name ended.
    pub status: u64,
    /// The number of the parent layer, where one is stored.
    pub parent: Option<u16>,
}

pub struct LayerView {
    pub number: u16,
    pub flags: u16,
    pub pivot: [Float; 3],
    pub name: Seq<u8>,
    pub status: u64,
    pub parent: Option<u16>,
}

impl View for Layer {
    type V = LayerView;

    open spec fn view(&self) -> LayerView {
        LayerView {
            number: self.number,
            flags: self.flags,
            pivot: self.pivot,
            name: self.name@,
            status: self.status,
            parent: self.parent,
        }
    }
}

impl Decode<u32> for Layer {
    /// A parent is read where the offset at which the name ended is below the
    /// declared length.
    open spec fn spec_decode(s: Seq<u8>, pos: int, length: u32) -> Parsed<LayerView> {
        match spec_u16(s, pos) {
            Err(e) => Err(e),
            Ok((number, p1)) => match spec_u16(s, p1) {
                Err(e) => Err(e),
                Ok((flags, p2)) => match spec_vec3(s, p2) {
                    Err(e) => Err(e),
                    Ok((pivot, p3)) => match spec_aligned_null_string(s, p3) {
                        Err(e) => Err(e),
                        Ok((name, p4)) => match spec_u16_if(p4 < length, s, p4) {
                            Err(e) => Err(e),
                            Ok((parent, end)) => Ok((LayerView {
                                number,
                                flags,
                                pivot,
                                name,
                                status: p4 as u64,
                                parent,
                            }, end)),
                        },
                    },
                },
            },
        }
    }

    fn decode(data: &[u8], pos: usize, length: u32) -> (r: Decoded<Layer>) {
        let (number, p1) = read_u16(data, pos)?;
        let (flags, p2) = read_u16(data, p1)?;
        let (pivot, p3) = read_vec3(data, p2)?;
        let (name, p4) = read_aligned_null_string(data, p3)?;
        let (parent, end) = read_u16_if((p4 as u64) < length as u64, data, p4)?;
        Ok((Layer { number, flags, pivot, name, status: p4 as u64, parent }, end))
    }
}

} // verus!

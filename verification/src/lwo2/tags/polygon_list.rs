use crate::decode::{
    Decode, Decoded, Element, Parsed, read_tag, read_u16, spec_tag, spec_u16, views,
};
use crate::error::DecodeError;
use crate::helpers::{
    count_with_vx, lemma_count_with_vx_bounds, spec_count_with_vx, spec_until_size_limit,
    until_size_limit,
};
use vstd::prelude::*;

verus! {

/// The polygons of a layer. They are numbered from zero in the order in which
/// they are stored, and their vertices are indices into the most recent point
/// list.
#[derive(Debug, PartialEq, Eq)]
pub struct PolygonLists {
    /// The kind of the polygons, such as `FACE`, `CURV` or `PTCH`.
    pub kind: [u8; 4],
    pub polygons: Vec<PolygonList>,
}

pub struct PolygonListsView {
    pub kind: [u8; 4],
    pub polygons: Seq<PolygonListView>,
}

impl View for PolygonLists {
    type V = PolygonListsView;

    open spec fn view(&self) -> PolygonListsView {
        PolygonListsView { kind: self.kind, polygons: views(self.polygons@) }
    }
}

impl Decode<u32> for PolygonLists {
    /// The declared length has to hold the kind; what is left of it is the
    /// budget of the polygons.
    open spec fn spec_decode(s: Seq<u8>, pos: int, length: u32) -> Parsed<PolygonListsView> {
        match spec_tag(s, pos) {
            Err(e) => Err(e),
            Ok((kind, p1)) => if length < 4 {
                Err(DecodeError::StructuralAssertion { pos: pos as u64 })
            } else {
                match spec_until_size_limit::<PolygonList, ()>(s, p1, length - 4, ()) {
                    Err(e) => Err(e),
                    Ok((polygons, end)) => Ok((PolygonListsView { kind, polygons }, end)),
                }
            },
        }
    }

    fn decode(data: &[u8], pos: usize, length: u32) -> (r: Decoded<PolygonLists>) {
        let (kind, p1) = read_tag(data, pos)?;
        if length < 4 {
            return Err(DecodeError::StructuralAssertion { pos: pos as u64 });
        }
        let (polygons, end) = until_size_limit::<PolygonList, ()>(
            data,
            p1,
            (length - 4) as u64,
            (),
        )?;
        Ok((PolygonLists { kind, polygons }, end))
    }
}

/// One polygon: its flags and the indices of its vertices.
#[derive(Debug, PartialEq, Eq)]
pub struct PolygonList {
    /// The six flag bits.
    pub flags: u8,
    /// The indices of the vertices.
    pub vert: Vec<u32>,
}

pub struct PolygonListView {
    pub flags: u8,
    pub vert: Seq<u32>,
}

impl View for PolygonList {
    type V = PolygonListView;

    open spec fn view(&self) -> PolygonListView {
        PolygonListView { flags: self.flags, vert: self.vert@ }
    }
}

impl Decode<()> for PolygonList {
    /// One 16-bit value holds the number of vertices in its low ten bits and
    /// the flags in its high six bits; that many variable-width indices
    /// follow.
    open spec fn spec_decode(s: Seq<u8>, pos: int, _args: ()) -> Parsed<PolygonListView> {
        match spec_u16(s, pos) {
            Err(e) => Err(e),
            Ok((numvert_and_flags, p1)) => match spec_count_with_vx(
                s,
                p1,
                (numvert_and_flags & 0x3ff) as nat,
            ) {
                Err(e) => Err(e),
                Ok((vert, end)) =>
                    Ok((PolygonListView { flags: (numvert_and_flags >> 10) as u8, vert }, end)),
            },
        }
    }

    fn decode(data: &[u8], pos: usize, _args: ()) -> (r: Decoded<PolygonList>) {
        let (numvert_and_flags, p1) = read_u16(data, pos)?;
        let (vert, end) = count_with_vx(data, p1, (numvert_and_flags & 0x3ff) as usize)?;
        Ok((PolygonList { flags: (numvert_and_flags >> 10) as u8, vert }, end))
    }
}

impl Element<()> for PolygonList {
    proof fn lemma_advances(s: Seq<u8>, pos: int, _args: ()) {
        match spec_u16(s, pos) {
            Err(_) => {},
            Ok((numvert_and_flags, p1)) => {
                lemma_count_with_vx_bounds(s, p1, (numvert_and_flags & 0x3ff) as nat);
            },
        }
    }
}

} // verus!

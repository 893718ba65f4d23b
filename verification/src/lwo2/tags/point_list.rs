use crate::decode::{exact, read_vec3, spec_vec3, Decode, Decoded, Float, Parsed};
use crate::error::DecodeError;
use vstd::prelude::*;

verus! {

/// The points of a layer: for each point its X, Y and Z coordinate. The
/// payload holds nothing else, so its declared length is twelve bytes for
/// each point; the points are numbered from zero in the order in which they
/// are stored, and other records refer to them by those numbers.
#[derive(Debug, PartialEq, Eq)]
pub struct PointList {
    pub point_location: Vec<[Float; 3]>,
}

pub struct PointListView {
    pub point_location: Seq<[Float; 3]>,
}

impl View for PointList {
    type V = PointListView;

    open spec fn view(&self) -> PointListView {
        PointListView { point_location: self.point_location@ }
    }
}

/// `n` points one after another.
pub open spec fn spec_points(s: Seq<u8>, pos: int, n: nat) -> Parsed<Seq<[Float; 3]>>
    decreases n,
{
    if n == 0 {
        Ok((Seq::empty(), pos))
    } else {
        match spec_vec3(s, pos) {
            Err(e) => Err(e),
            Ok((first, next)) => match spec_points(s, next, (n - 1) as nat) {
                Err(e) => Err(e),
                Ok((rest, end)) => Ok((seq![first] + rest, end)),
            },
        }
    }
}

/// Reads `n` points.
pub fn read_points(data: &[u8], pos: usize, n: u32) -> (r: Decoded<Vec<[Float; 3]>>)
    ensures
        match r {
            Ok((points, end)) => spec_points(data@, pos as int, n as nat) == Ok::<
                (Seq<[Float; 3]>, int),
                DecodeError,
            >((points@, end as int)),
            Err(e) => spec_points(data@, pos as int, n as nat) == Err::<
                (Seq<[Float; 3]>, int),
                DecodeError,
            >(e),
        },
{
    let mut points: Vec<[Float; 3]> = Vec::new();
    let mut cur: usize = pos;
    let mut left: u32 = n;
    while left > 0
        invariant
            match spec_points(data@, cur as int, left as nat) {
                Ok((rest, end)) => spec_points(data@, pos as int, n as nat) == Ok::<
                    (Seq<[Float; 3]>, int),
                    DecodeError,
                >((points@ + rest, end)),
                Err(e) => spec_points(data@, pos as int, n as nat) == Err::<
                    (Seq<[Float; 3]>, int),
                    DecodeError,
                >(e),
            },
        decreases left,
    {
        let ghost before = points@;
        let (point, next) = read_vec3(data, cur)?;
        points.push(point);
        proof {
            match spec_points(data@, next as int, (left - 1) as nat) {
                Ok((rest, _)) => {
                    assert(before + (seq![point] + rest) =~= points@ + rest);
                },
                Err(_) => {},
            }
        }
        cur = next;
        left = left - 1;
    }
    proof {
        assert(points@ + Seq::<[Float; 3]>::empty() =~= points@);
    }
    Ok((points, cur))
}

impl Decode<u32> for PointList {
    /// One point for every twelve bytes of the declared length, which
    /// has to be a multiple of twelve.
    open spec fn spec_decode(s: Seq<u8>, pos: int, length: u32) -> Parsed<PointListView> {
        match spec_points(s, pos, (length / 12) as nat) {
            Err(e) => Err(e),
            Ok((points, end)) => if length % 12 == 0 {
                Ok((PointListView { point_location: points }, end))
            } else {
                Err(DecodeError::StructuralAssertion { pos: pos as u64 })
            },
        }
    }

    fn decode(data: &[u8], pos: usize, length: u32) -> (r: Decoded<PointList>) {
        let (points, end) = read_points(data, pos, length / 12)?;
        if length % 12 == 0 {
            Ok((PointList { point_location: points }, end))
        } else {
            Err(DecodeError::StructuralAssertion { pos: pos as u64 })
        }
    }
}

} // verus!

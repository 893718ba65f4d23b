pub mod blocks;
pub mod plugin;
pub mod surface_parameters;

use crate::decode::{
    Decode, Decoded, Float, Parsed, read_float, read_u16, read_vec3, spec_float, spec_u16,
    spec_vec3,
};
use crate::helpers::{lwo_null_string, spec_lwo_null_string};
use crate::lwo2::{spec_vx, vx};
use vstd::prelude::*;

verus! {

/// A vector of three numbers, a colour or a position, and the envelope that
/// varies it over time.
#[derive(Debug, Clone, Copy, PartialEq, Eq)]
pub struct VectorEnvelope {
    /// The three components of the value.
    pub base_color: [Float; 3],
    /// The index of the envelope, zero where there is none.
    pub envelope: u32,
}

impl View for VectorEnvelope {
    type V = VectorEnvelope;

    open spec fn view(&self) -> VectorEnvelope {
        *self
    }
}

impl Decode<u32> for VectorEnvelope {
    open spec fn spec_decode(s: Seq<u8>, pos: int, _length: u32) -> Parsed<VectorEnvelope> {
        match spec_vec3(s, pos) {
            Err(e) => Err(e),
            Ok((base_color, p1)) => match spec_vx(s, p1) {
                Err(e) => Err(e),
                Ok((envelope, end)) => Ok((VectorEnvelope { base_color, envelope }, end)),
            },
        }
    }

    fn decode(data: &[u8], pos: usize, _length: u32) -> (r: Decoded<VectorEnvelope>) {
        let (base_color, p1) = read_vec3(data, pos)?;
        let (envelope, end) = vx(data, p1)?;
        Ok((VectorEnvelope { base_color, envelope }, end))
    }
}

/// A name given as a padded string.
#[derive(Debug, PartialEq, Eq)]
pub struct Name {
    pub name: String,
}

pub struct NameView {
    pub name: Seq<char>,
}

impl View for Name {
    type V = NameView;

    open spec fn view(&self) -> NameView {
        NameView { name: self.name@ }
    }
}

impl Decode<u32> for Name {
    open spec fn spec_decode(s: Seq<u8>, pos: int, _length: u32) -> Parsed<NameView> {
        match spec_lwo_null_string(s, pos) {
            Err(e) => Err(e),
            Ok((name, end)) => Ok((NameView { name }, end)),
        }
    }

    fn decode(data: &[u8], pos: usize, _length: u32) -> (r: Decoded<Name>) {
        let (name, end) = lwo_null_string(data, pos)?;
        Ok((Name { name }, end))
    }
}

/// A single number and the envelope that varies it over time.
#[derive(Debug, Clone, Copy, PartialEq, Eq)]
pub struct ValueEnvelope {
    pub value: Float,
    /// The index of the envelope, zero where there is none.
    pub envelope: u32,
}

impl View for ValueEnvelope {
    type V = ValueEnvelope;

    open spec fn view(&self) -> ValueEnvelope {
        *self
    }
}

impl Decode<u32> for ValueEnvelope {
    open spec fn spec_decode(s: Seq<u8>, pos: int, _length: u32) -> Parsed<ValueEnvelope> {
        match spec_float(s, pos) {
            Err(e) => Err(e),
            Ok((value, p1)) => match spec_vx(s, p1) {
                Err(e) => Err(e),
                Ok((envelope, end)) => Ok((ValueEnvelope { value, envelope }, end)),
            },
        }
    }

    fn decode(data: &[u8], pos: usize, _length: u32) -> (r: Decoded<ValueEnvelope>) {
        let (value, p1) = read_float(data, pos)?;
        let (envelope, end) = vx(data, p1)?;
        Ok((ValueEnvelope { value, envelope }, end))
    }
}

/// A reference by index to an image clip.
#[derive(Debug, Clone, Copy, PartialEq, Eq)]
pub struct VxReference {
    /// The index of the clip.
    pub texture_image: u32,
}

impl View for VxReference {
    type V = VxReference;

    open spec fn view(&self) -> VxReference {
        *self
    }
}

impl Decode<u32> for VxReference {
    open spec fn spec_decode(s: Seq<u8>, pos: int, _length: u32) -> Parsed<VxReference> {
        match spec_vx(s, pos) {
            Err(e) => Err(e),
            Ok((texture_image, end)) => Ok((VxReference { texture_image }, end)),
        }
    }

    fn decode(data: &[u8], pos: usize, _length: u32) -> (r: Decoded<VxReference>) {
        let (texture_image, end) = vx(data, pos)?;
        Ok((VxReference { texture_image }, end))
    }
}

/// A switch: zero for off, any other number for on.
#[derive(Debug, Clone, Copy, PartialEq, Eq)]
pub struct EnableState {
    pub enable: u16,
}

impl View for EnableState {
    type V = EnableState;

    open spec fn view(&self) -> EnableState {
        *self
    }
}

impl Decode<u32> for EnableState {
    open spec fn spec_decode(s: Seq<u8>, pos: int, _length: u32) -> Parsed<EnableState> {
        match spec_u16(s, pos) {
            Err(e) => Err(e),
            Ok((enable, end)) => Ok((EnableState { enable }, end)),
        }
    }

    fn decode(data: &[u8], pos: usize, _length: u32) -> (r: Decoded<EnableState>) {
        let (enable, end) = read_u16(data, pos)?;
        Ok((EnableState { enable }, end))
    }
}

} // verus!

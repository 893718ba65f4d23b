use crate::decode::{Decode, Decoded, Parsed, read_bytes, read_u16, spec_bytes, spec_u16};
use crate::error::DecodeError;
use crate::helpers::{lwo_null_string, spec_lwo_null_string};
use vstd::prelude::*;

verus! {

/// A plug-in and what it stores for itself: the name under which the plug-in
/// is registered, flags, and the rest of the payload as the plug-in wrote it.
#[derive(Debug, PartialEq, Eq)]
pub struct PluginServerNameAndData {
    /// The name of the plug-in.
    pub server_name: String,
    pub flags: u16,
    /// The bytes of the payload that follow the flags.
    pub parameters: Vec<u8>,
}

pub struct PluginServerNameAndDataView {
    pub server_name: Seq<char>,
    pub flags: u16,
    pub parameters: Seq<u8>,
}

impl View for PluginServerNameAndData {
    type V = PluginServerNameAndDataView;

    open spec fn view(&self) -> PluginServerNameAndDataView {
        PluginServerNameAndDataView {
            server_name: self.server_name@,
            flags: self.flags,
            parameters: self.parameters@,
        }
    }
}

impl Decode<u32> for PluginServerNameAndData {
    /// The name and the flags have to fit in the declared length; what is
    /// left of it are the plug-in's bytes.
    open spec fn spec_decode(s: Seq<u8>, pos: int, length: u32) -> Parsed<
        PluginServerNameAndDataView,
    > {
        match spec_lwo_null_string(s, pos) {
            Err(e) => Err(e),
            Ok((server_name, p1)) => match spec_u16(s, p1) {
                Err(e) => Err(e),
                Ok((flags, p2)) => if length < p2 - pos {
                    Err(DecodeError::StructuralAssertion { pos: pos as u64 })
                } else {
                    match spec_bytes(s, p2, length - (p2 - pos)) {
                        Err(e) => Err(e),
                        Ok((parameters, end)) =>
                            Ok((PluginServerNameAndDataView { server_name, flags, parameters }, end)),
                    }
                },
            },
        }
    }

    fn decode(data: &[u8], pos: usize, length: u32) -> (r: Decoded<PluginServerNameAndData>) {
        let (server_name, p1) = lwo_null_string(data, pos)?;
        let (flags, p2) = read_u16(data, p1)?;
        if (length as u64) < (p2 - pos) as u64 {
            return Err(DecodeError::StructuralAssertion { pos: pos as u64 });
        }
        let (parameters, end) = read_bytes(data, p2, length as u64 - (p2 - pos) as u64)?;
        Ok((PluginServerNameAndData { server_name, flags, parameters }, end))
    }
}

} // verus!

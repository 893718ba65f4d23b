use vstd::prelude::*;

verus! {

/// Why a decode stopped. Every kind carries the byte offset at which the
/// problem was detected; any of them ends the decode of the whole input.
#[derive(Debug, Clone, Copy, PartialEq, Eq)]
pub enum DecodeError {
    /// The input cannot supply the bytes of a read, or a forced cursor
    /// movement would leave the input. `pos` is the offset at which the
    /// read or the movement began.
    IoError { pos: u64 },
    /// Four fixed marker bytes were expected at `pos` and others were found.
    MagicMismatch { pos: u64, expected: [u8; 4], actual: [u8; 4] },
    /// The discriminator read at `pos` is in no catalog valid at that place.
    /// `tag` holds its raw bytes; a discriminator narrower than four bytes
    /// is right-aligned and zero-filled on the left.
    UnrecognizedTag { pos: u64, tag: [u8; 4] },
    /// The bytes of the padded string that starts at `pos` are not UTF-8.
    EncodingError { pos: u64 },
    /// A declared byte count breaks a size rule of its record; `pos` is the
    /// offset at which the payload of that record begins.
    StructuralAssertion { pos: u64 },
}

impl DecodeError {
    /// The byte offset carried by the error.
    pub open spec fn spec_offset(self) -> u64 {
        match self {
            DecodeError::IoError { pos } => pos,
            DecodeError::MagicMismatch { pos, .. } => pos,
            DecodeError::UnrecognizedTag { pos, .. } => pos,
            DecodeError::EncodingError { pos } => pos,
            DecodeError::StructuralAssertion { pos } => pos,
        }
    }

    /// The byte offset at which the error was detected.
    pub fn offset(&self) -> (r: u64)
        ensures
            r == self.spec_offset(),
    {
        match self {
            DecodeError::IoError { pos } => *pos,
            DecodeError::MagicMismatch { pos, .. } => *pos,
            DecodeError::UnrecognizedTag { pos, .. } => *pos,
            DecodeError::EncodingError { pos } => *pos,
            DecodeError::StructuralAssertion { pos } => *pos,
        }
    }
}

} // verus!

use crate::decode::{Decode, Decoded, Parsed, views};
use crate::helpers::{spec_until_size_limit, until_size_limit};
use vstd::prelude::*;

verus! {

/// The tag strings of the object, numbered from zero in the order in which
/// they are stored: the names of surfaces and parts that polygon tags refer
/// to.
#[derive(Debug, PartialEq, Eq)]
pub struct TagStrings {
    pub tag_strings: Vec<String>,
}

pub struct TagStringsView {
    pub tag_strings: Seq<Seq<char>>,
}

impl View for TagStrings {
    type V = TagStringsView;

    open spec fn view(&self) -> TagStringsView {
        TagStringsView { tag_strings: views(self.tag_strings@) }
    }
}

impl Decode<u32> for TagStrings {
    /// Padded strings are decoded until the declared length is used up.
    open spec fn spec_decode(s: Seq<u8>, pos: int, length: u32) -> Parsed<TagStringsView> {
        match spec_until_size_limit::<String, ()>(s, pos, length as int, ()) {
            Err(e) => Err(e),
            Ok((tag_strings, end)) => Ok((TagStringsView { tag_strings }, end)),
        }
    }

    fn decode(data: &[u8], pos: usize, length: u32) -> (r: Decoded<TagStrings>) {
        let (tag_strings, end) = until_size_limit::<String, ()>(data, pos, length as u64, ())?;
        Ok((TagStrings { tag_strings }, end))
    }
}

} // verus!

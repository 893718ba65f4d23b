use crate::decode::{
    ascii, code_tag, Decode, Decoded, Element, Float, Parsed, read_aligned_null_string,
    read_float, read_tag, read_u16, read_u8, same_tag, spec_aligned_null_string, spec_float,
    spec_tag, spec_u16, spec_u8, tags_equal, unrecognized_code, views,
};
use crate::error::DecodeError;
use crate::helpers::{count, spec_count, spec_until_size_limit, until_size_limit};
use crate::iff::{lemma_sub_chunk_extent, SubChunk, SubChunkView};
use crate::lwo2::{spec_vx, vx};
use crate::lwo2::sub_tags::plugin::{PluginServerNameAndData, PluginServerNameAndDataView};
use vstd::prelude::*;

verus! {

/// An envelope: a curve that gives a parameter its value at each time. Other
/// records refer to it by its index.
#[derive(Debug, PartialEq, Eq)]
pub struct EnvelopeDefinition {
    /// The index by which the envelope is referred to.
    pub index: u32,
    pub attributes: Vec<EnvelopeSubChunk>,
}

pub struct EnvelopeDefinitionView {
    pub index: u32,
    pub attributes: Seq<EnvelopeSubChunkView>,
}

impl View for EnvelopeDefinition {
    type V = EnvelopeDefinitionView;

    open spec fn view(&self) -> EnvelopeDefinitionView {
        EnvelopeDefinitionView {
            index: self.index,
            attributes: views(self.attributes@),
        }
    }
}

impl Decode<u32> for EnvelopeDefinition {
    /// What the index leaves of the declared length is the budget of the
    /// sub-records.
    open spec fn spec_decode(s: Seq<u8>, pos: int, length: u32) -> Parsed<EnvelopeDefinitionView> {
        match spec_vx(s, pos) {
            Err(e) => Err(e),
            Ok((index, p1)) => if length < p1 - pos {
                Err(DecodeError::StructuralAssertion { pos: pos as u64 })
            } else {
                match spec_until_size_limit::<EnvelopeSubChunk, ()>(
                    s,
                    p1,
                    length - (p1 - pos),
                    (),
                ) {
                    Err(e) => Err(e),
                    Ok((attributes, end)) =>
                        Ok((EnvelopeDefinitionView { index, attributes }, end)),
                }
            },
        }
    }

    fn decode(data: &[u8], pos: usize, length: u32) -> (r: Decoded<EnvelopeDefinition>) {
        let (index, p1) = vx(data, pos)?;
        if (length as u64) < (p1 - pos) as u64 {
            return Err(DecodeError::StructuralAssertion { pos: pos as u64 });
        }
        let (attributes, end) = until_size_limit::<EnvelopeSubChunk, ()>(
            data,
            p1,
            length as u64 - (p1 - pos) as u64,
            (),
        )?;
        Ok((EnvelopeDefinition { index, attributes }, end))
    }
}

/// One sub-record of an envelope.
#[derive(Debug, PartialEq, Eq)]
pub enum EnvelopeSubChunk {
    /// What the envelope stands for.
    EnvelopeType(SubChunk<EnvelopeType>),
    /// The curve before the first key.
    PreBehavior(SubChunk<Behavior>),
    /// The curve after the last key.
    PostBehavior(SubChunk<Behavior>),
    /// A key of the curve.
    KeyframeTimeAndValue(SubChunk<KeyframeTimeAndValue>),
    /// The curve between the most recent key and the one before it.
    IntervalInterpolation(SubChunk<IntervalInterpolation>),
    /// A plug-in that changes the curve.
    PluginChannelModifiers(SubChunk<PluginServerNameAndData>),
    /// The name of the channel.
    ChannelName(SubChunk<PluginChannelName>),
}

pub enum EnvelopeSubChunkView {
    EnvelopeType(SubChunkView<EnvelopeType>),
    PreBehavior(SubChunkView<Behavior>),
    PostBehavior(SubChunkView<Behavior>),
    KeyframeTimeAndValue(SubChunkView<KeyframeTimeAndValue>),
    IntervalInterpolation(SubChunkView<IntervalInterpolationView>),
    PluginChannelModifiers(SubChunkView<PluginServerNameAndDataView>),
    ChannelName(SubChunkView<PluginChannelNameView>),
}

impl View for EnvelopeSubChunk {
    type V = EnvelopeSubChunkView;

    open spec fn view(&self) -> EnvelopeSubChunkView {
        match self {
            EnvelopeSubChunk::EnvelopeType(chunk) => EnvelopeSubChunkView::EnvelopeType(chunk@),
            EnvelopeSubChunk::PreBehavior(chunk) => EnvelopeSubChunkView::PreBehavior(chunk@),
            EnvelopeSubChunk::PostBehavior(chunk) => EnvelopeSubChunkView::PostBehavior(chunk@),
            EnvelopeSubChunk::KeyframeTimeAndValue(chunk) =>
                EnvelopeSubChunkView::KeyframeTimeAndValue(chunk@),
            EnvelopeSubChunk::IntervalInterpolation(chunk) =>
                EnvelopeSubChunkView::IntervalInterpolation(chunk@),
            EnvelopeSubChunk::PluginChannelModifiers(chunk) =>
                EnvelopeSubChunkView::PluginChannelModifiers(chunk@),
            EnvelopeSubChunk::ChannelName(chunk) => EnvelopeSubChunkView::ChannelName(chunk@),
        }
    }
}

impl Decode<()> for EnvelopeSubChunk {
    open spec fn spec_decode(s: Seq<u8>, pos: int, _args: ()) -> Parsed<EnvelopeSubChunkView> {
        match spec_tag(s, pos) {
            Err(e) => Err(e),
            Ok((tag, start)) => if same_tag(tag, ascii('T', 'Y', 'P', 'E')) {
                match SubChunk::<EnvelopeType>::spec_decode(s, start, ()) {
                    Err(e) => Err(e),
                    Ok((chunk, end)) => Ok((EnvelopeSubChunkView::EnvelopeType(chunk), end)),
                }
            } else if same_tag(tag, ascii('P', 'R', 'E', ' ')) {
                match SubChunk::<Behavior>::spec_decode(s, start, ()) {
                    Err(e) => Err(e),
                    Ok((chunk, end)) => Ok((EnvelopeSubChunkView::PreBehavior(chunk), end)),
                }
            } else if same_tag(tag, ascii('P', 'O', 'S', 'T')) {
                match SubChunk::<Behavior>::spec_decode(s, start, ()) {
                    Err(e) => Err(e),
                    Ok((chunk, end)) => Ok((EnvelopeSubChunkView::PostBehavior(chunk), end)),
                }
            } else if same_tag(tag, ascii('K', 'E', 'Y', ' ')) {
                match SubChunk::<KeyframeTimeAndValue>::spec_decode(s, start, ()) {
                    Err(e) => Err(e),
                    Ok((chunk, end)) =>
                        Ok((EnvelopeSubChunkView::KeyframeTimeAndValue(chunk), end)),
                }
            } else if same_tag(tag, ascii('S', 'P', 'A', 'N')) {
                match SubChunk::<IntervalInterpolation>::spec_decode(s, start, ()) {
                    Err(e) => Err(e),
                    Ok((chunk, end)) =>
                        Ok((EnvelopeSubChunkView::IntervalInterpolation(chunk), end)),
                }
            } else if same_tag(tag, ascii('C', 'H', 'A', 'N')) {
                match SubChunk::<PluginServerNameAndData>::spec_decode(s, start, ()) {
                    Err(e) => Err(e),
                    Ok((chunk, end)) =>
                        Ok((EnvelopeSubChunkView::PluginChannelModifiers(chunk), end)),
                }
            } else if same_tag(tag, ascii('N', 'A', 'M', 'E')) {
                match SubChunk::<PluginChannelName>::spec_decode(s, start, ()) {
                    Err(e) => Err(e),
                    Ok((chunk, end)) => Ok((EnvelopeSubChunkView::ChannelName(chunk), end)),
                }
            } else {
                Err(DecodeError::UnrecognizedTag { pos: pos as u64, tag })
            },
        }
    }

    fn decode(data: &[u8], pos: usize, _args: ()) -> (r: Decoded<EnvelopeSubChunk>) {
        let (tag, start) = read_tag(data, pos)?;
        if tags_equal(&tag, &ascii('T', 'Y', 'P', 'E')) {
            let (chunk, end) = SubChunk::<EnvelopeType>::decode(data, start, ())?;
            Ok((EnvelopeSubChunk::EnvelopeType(chunk), end))
        } else if tags_equal(&tag, &ascii('P', 'R', 'E', ' ')) {
            let (chunk, end) = SubChunk::<Behavior>::decode(data, start, ())?;
            Ok((EnvelopeSubChunk::PreBehavior(chunk), end))
        } else if tags_equal(&tag, &ascii('P', 'O', 'S', 'T')) {
            let (chunk, end) = SubChunk::<Behavior>::decode(data, start, ())?;
            Ok((EnvelopeSubChunk::PostBehavior(chunk), end))
        } else if tags_equal(&tag, &ascii('K', 'E', 'Y', ' ')) {
            let (chunk, end) = SubChunk::<KeyframeTimeAndValue>::decode(data, start, ())?;
            Ok((EnvelopeSubChunk::KeyframeTimeAndValue(chunk), end))
        } else if tags_equal(&tag, &ascii('S', 'P', 'A', 'N')) {
            let (chunk, end) = SubChunk::<IntervalInterpolation>::decode(data, start, ())?;
            Ok((EnvelopeSubChunk::IntervalInterpolation(chunk), end))
        } else if tags_equal(&tag, &ascii('C', 'H', 'A', 'N')) {
            let (chunk, end) = SubChunk::<PluginServerNameAndData>::decode(data, start, ())?;
            Ok((EnvelopeSubChunk::PluginChannelModifiers(chunk), end))
        } else if tags_equal(&tag, &ascii('N', 'A', 'M', 'E')) {
            let (chunk, end) = SubChunk::<PluginChannelName>::decode(data, start, ())?;
            Ok((EnvelopeSubChunk::ChannelName(chunk), end))
        } else {
            Err(DecodeError::UnrecognizedTag { pos: pos as u64, tag })
        }
    }
}

impl Element<()> for EnvelopeSubChunk {
    proof fn lemma_advances(s: Seq<u8>, pos: int, _args: ()) {
        match spec_tag(s, pos) {
            Err(_) => {},
            Ok((tag, start)) => {
                if same_tag(tag, ascii('T', 'Y', 'P', 'E')) {
                    lemma_sub_chunk_extent::<EnvelopeType>(s, start);
                } else if same_tag(tag, ascii('P', 'R', 'E', ' ')) {
                    lemma_sub_chunk_extent::<Behavior>(s, start);
                } else if same_tag(tag, ascii('P', 'O', 'S', 'T')) {
                    lemma_sub_chunk_extent::<Behavior>(s, start);
                } else if same_tag(tag, ascii('K', 'E', 'Y', ' ')) {
                    lemma_sub_chunk_extent::<KeyframeTimeAndValue>(s, start);
                } else if same_tag(tag, ascii('S', 'P', 'A', 'N')) {
                    lemma_sub_chunk_extent::<IntervalInterpolation>(s, start);
                } else if same_tag(tag, ascii('C', 'H', 'A', 'N')) {
                    lemma_sub_chunk_extent::<PluginServerNameAndData>(s, start);
                } else if same_tag(tag, ascii('N', 'A', 'M', 'E')) {
                    lemma_sub_chunk_extent::<PluginChannelName>(s, start);
                }
            },
        }
    }
}

/// The name of an envelope's channel.
#[derive(Debug, PartialEq, Eq)]
pub struct PluginChannelName {
    pub channel_name: Vec<u8>,
}

pub struct PluginChannelNameView {
    pub channel_name: Seq<u8>,
}

impl View for PluginChannelName {
    type V = PluginChannelNameView;

    open spec fn view(&self) -> PluginChannelNameView {
        PluginChannelNameView { channel_name: self.channel_name@ }
    }
}

impl Decode<u32> for PluginChannelName {
    open spec fn spec_decode(s: Seq<u8>, pos: int, _length: u32) -> Parsed<PluginChannelNameView> {
        match spec_aligned_null_string(s, pos) {
            Err(e) => Err(e),
            Ok((channel_name, end)) => Ok((PluginChannelNameView { channel_name }, end)),
        }
    }

    fn decode(data: &[u8], pos: usize, _length: u32) -> (r: Decoded<PluginChannelName>) {
        let (channel_name, end) = read_aligned_null_string(data, pos)?;
        Ok((PluginChannelName { channel_name }, end))
    }
}

/// The curve between two keys.
#[derive(Debug, PartialEq, Eq)]
pub struct IntervalInterpolation {
    pub kind: IntervalInterpolationType,
    pub parameters: Vec<Float>,
}

pub struct IntervalInterpolationView {
    pub kind: IntervalInterpolationType,
    pub parameters: Seq<Float>,
}

impl View for IntervalInterpolation {
    type V = IntervalInterpolationView;

    open spec fn view(&self) -> IntervalInterpolationView {
        IntervalInterpolationView { kind: self.kind, parameters: self.parameters@ }
    }
}

impl Decode<u32> for IntervalInterpolation {
    /// The declared length has to hold the kind; one number follows for every
    /// four bytes that are left of it.
    open spec fn spec_decode(s: Seq<u8>, pos: int, length: u32) -> Parsed<
        IntervalInterpolationView,
    > {
        match IntervalInterpolationType::spec_decode(s, pos, ()) {
            Err(e) => Err(e),
            Ok((kind, p1)) => if length < 4 {
                Err(DecodeError::StructuralAssertion { pos: pos as u64 })
            } else {
                match spec_count::<Float, ()>(s, p1, ((length - 4) / 4) as nat, ()) {
                    Err(e) => Err(e),
                    Ok((parameters, end)) =>
                        Ok((IntervalInterpolationView { kind, parameters }, end)),
                }
            },
        }
    }

    fn decode(data: &[u8], pos: usize, length: u32) -> (r: Decoded<IntervalInterpolation>) {
        let (kind, p1) = IntervalInterpolationType::decode(data, pos, ())?;
        if length < 4 {
            return Err(DecodeError::StructuralAssertion { pos: pos as u64 });
        }
        let (parameters, end) = count::<Float, ()>(data, p1, ((length - 4) / 4) as u64, ())?;
        assert(views(parameters@) =~= parameters@);
        Ok((IntervalInterpolation { kind, parameters }, end))
    }
}

/// The shape of the curve between two keys.
#[derive(Debug, Clone, Copy, PartialEq, Eq)]
pub enum IntervalInterpolationType {
    Step,
    Line,
    KochanekBartels,
    Hermite,
    Bezier1D,
    Bezier2D,
}

impl View for IntervalInterpolationType {
    type V = IntervalInterpolationType;

    open spec fn view(&self) -> IntervalInterpolationType {
        *self
    }
}

impl IntervalInterpolationType {
    /// The variant that the four bytes `tag` name, if there is one.
    pub open spec fn spec_from_tag(tag: [u8; 4]) -> Option<IntervalInterpolationType> {
        if same_tag(tag, ascii('S', 'T', 'E', 'P')) {
            Some(IntervalInterpolationType::Step)
        } else if same_tag(tag, ascii('L', 'I', 'N', 'E')) {
            Some(IntervalInterpolationType::Line)
        } else if same_tag(tag, ascii('T', 'C', 'B', '\0')) {
            Some(IntervalInterpolationType::KochanekBartels)
        } else if same_tag(tag, ascii('H', 'E', 'R', 'M')) {
            Some(IntervalInterpolationType::Hermite)
        } else if same_tag(tag, ascii('B', 'E', 'Z', 'I')) {
            Some(IntervalInterpolationType::Bezier1D)
        } else if same_tag(tag, ascii('B', 'E', 'Z', '2')) {
            Some(IntervalInterpolationType::Bezier2D)
        } else {
            None
        }
    }

    /// Looks up the variant that the four bytes `tag` name.
    pub fn from_tag(tag: &[u8; 4]) -> (r: Option<IntervalInterpolationType>)
        ensures
            r == Self::spec_from_tag(*tag),
    {
        if tags_equal(tag, &ascii('S', 'T', 'E', 'P')) {
            Some(IntervalInterpolationType::Step)
        } else if tags_equal(tag, &ascii('L', 'I', 'N', 'E')) {
            Some(IntervalInterpolationType::Line)
        } else if tags_equal(tag, &ascii('T', 'C', 'B', '\0')) {
            Some(IntervalInterpolationType::KochanekBartels)
        } else if tags_equal(tag, &ascii('H', 'E', 'R', 'M')) {
            Some(IntervalInterpolationType::Hermite)
        } else if tags_equal(tag, &ascii('B', 'E', 'Z', 'I')) {
            Some(IntervalInterpolationType::Bezier1D)
        } else if tags_equal(tag, &ascii('B', 'E', 'Z', '2')) {
            Some(IntervalInterpolationType::Bezier2D)
        } else {
            None
        }
    }
}

impl Decode<()> for IntervalInterpolationType {
    open spec fn spec_decode(s: Seq<u8>, pos: int, _args: ()) -> Parsed<IntervalInterpolationType> {
        match spec_tag(s, pos) {
            Err(e) => Err(e),
            Ok((tag, end)) => match IntervalInterpolationType::spec_from_tag(tag) {
                Some(v) => Ok((v, end)),
                None => Err(DecodeError::UnrecognizedTag { pos: pos as u64, tag }),
            },
        }
    }

    fn decode(data: &[u8], pos: usize, _args: ()) -> (r: Decoded<IntervalInterpolationType>) {
        let (tag, end) = read_tag(data, pos)?;
        match IntervalInterpolationType::from_tag(&tag) {
            Some(v) => Ok((v, end)),
            None => Err(DecodeError::UnrecognizedTag { pos: pos as u64, tag }),
        }
    }
}

impl Element<()> for IntervalInterpolationType {
    proof fn lemma_advances(s: Seq<u8>, pos: int, _args: ()) {
    }
}

/// A key of an envelope: a time in seconds and the value at that time.
#[derive(Debug, Clone, Copy, PartialEq, Eq)]
pub struct KeyframeTimeAndValue {
    pub time: Float,
    pub value: Float,
}

impl View for KeyframeTimeAndValue {
    type V = KeyframeTimeAndValue;

    open spec fn view(&self) -> KeyframeTimeAndValue {
        *self
    }
}

impl Decode<u32> for KeyframeTimeAndValue {
    open spec fn spec_decode(s: Seq<u8>, pos: int, _length: u32) -> Parsed<KeyframeTimeAndValue> {
        match spec_float(s, pos) {
            Err(e) => Err(e),
            Ok((time, p1)) => match spec_float(s, p1) {
                Err(e) => Err(e),
                Ok((value, end)) => Ok((KeyframeTimeAndValue { time, value }, end)),
            },
        }
    }

    fn decode(data: &[u8], pos: usize, _length: u32) -> (r: Decoded<KeyframeTimeAndValue>) {
        let (time, p1) = read_float(data, pos)?;
        let (value, end) = read_float(data, p1)?;
        Ok((KeyframeTimeAndValue { time, value }, end))
    }
}

/// How an envelope goes on outside its keys.
#[derive(Debug, Clone, Copy, PartialEq, Eq)]
pub enum Behavior {
    Reset,
    Constant,
    Repeat,
    Oscillate,
    OffsetRepeat,
    Linear,
}

impl View for Behavior {
    type V = Behavior;

    open spec fn view(&self) -> Behavior {
        *self
    }
}

impl Behavior {
    /// The variant that the number `code` stands for, if there is one.
    pub open spec fn spec_from_code(code: u16) -> Option<Behavior> {
        if code == 0 {
            Some(Behavior::Reset)
        } else if code == 1 {
            Some(Behavior::Constant)
        } else if code == 2 {
            Some(Behavior::Repeat)
        } else if code == 3 {
            Some(Behavior::Oscillate)
        } else if code == 4 {
            Some(Behavior::OffsetRepeat)
        } else if code == 5 {
            Some(Behavior::Linear)
        } else {
            None
        }
    }

    /// Looks up the variant that the number `code` stands for.
    pub fn from_code(code: u16) -> (r: Option<Behavior>)
        ensures
            r == Self::spec_from_code(code),
    {
        if code == 0 {
            Some(Behavior::Reset)
        } else if code == 1 {
            Some(Behavior::Constant)
        } else if code == 2 {
            Some(Behavior::Repeat)
        } else if code == 3 {
            Some(Behavior::Oscillate)
        } else if code == 4 {
            Some(Behavior::OffsetRepeat)
        } else if code == 5 {
            Some(Behavior::Linear)
        } else {
            None
        }
    }
}

impl Decode<u32> for Behavior {
    open spec fn spec_decode(s: Seq<u8>, pos: int, _length: u32) -> Parsed<Behavior> {
        match spec_u16(s, pos) {
            Err(e) => Err(e),
            Ok((code, end)) => match Behavior::spec_from_code(code) {
                Some(v) => Ok((v, end)),
                None => Err(unrecognized_code(pos, code as u32)),
            },
        }
    }

    fn decode(data: &[u8], pos: usize, _length: u32) -> (r: Decoded<Behavior>) {
        let (code, end) = read_u16(data, pos)?;
        match Behavior::from_code(code) {
            Some(v) => Ok((v, end)),
            None =>
                Err(DecodeError::UnrecognizedTag { pos: pos as u64, tag: code_tag(code as u32) }),
        }
    }
}

/// What an envelope stands for.
#[derive(Debug, Clone, Copy, PartialEq, Eq)]
pub struct EnvelopeType {
    /// How the values are shown to the user.
    pub user_format: UserFormat,
    /// The parameter that the envelope varies.
    pub kind: EnvelopeKind,
}

impl View for EnvelopeType {
    type V = EnvelopeType;

    open spec fn view(&self) -> EnvelopeType {
        *self
    }
}

impl Decode<u32> for EnvelopeType {
    open spec fn spec_decode(s: Seq<u8>, pos: int, _length: u32) -> Parsed<EnvelopeType> {
        match UserFormat::spec_decode(s, pos, ()) {
            Err(e) => Err(e),
            Ok((user_format, p1)) => match EnvelopeKind::spec_decode(s, p1, ()) {
                Err(e) => Err(e),
                Ok((kind, end)) => Ok((EnvelopeType { user_format, kind }, end)),
            },
        }
    }

    fn decode(data: &[u8], pos: usize, _length: u32) -> (r: Decoded<EnvelopeType>) {
        let (user_format, p1) = UserFormat::decode(data, pos, ())?;
        let (kind, end) = EnvelopeKind::decode(data, p1, ())?;
        Ok((EnvelopeType { user_format, kind }, end))
    }
}

/// How the values of an envelope are shown.
#[derive(Debug, Clone, Copy, PartialEq, Eq)]
pub enum UserFormat {
    Float,
    Distance,
    Percent,
    Angle,
}

impl View for UserFormat {
    type V = UserFormat;

    open spec fn view(&self) -> UserFormat {
        *self
    }
}

impl UserFormat {
    /// The variant that the number `code` stands for, if there is one.
    pub open spec fn spec_from_code(code: u8) -> Option<UserFormat> {
        if code == 2 {
            Some(UserFormat::Float)
        } else if code == 3 {
            Some(UserFormat::Distance)
        } else if code == 4 {
            Some(UserFormat::Percent)
        } else if code == 5 {
            Some(UserFormat::Angle)
        } else {
            None
        }
    }

    /// Looks up the variant that the number `code` stands for.
    pub fn from_code(code: u8) -> (r: Option<UserFormat>)
        ensures
            r == Self::spec_from_code(code),
    {
        if code == 2 {
            Some(UserFormat::Float)
        } else if code == 3 {
            Some(UserFormat::Distance)
        } else if code == 4 {
            Some(UserFormat::Percent)
        } else if code == 5 {
            Some(UserFormat::Angle)
        } else {
            None
        }
    }
}

impl Decode<()> for UserFormat {
    open spec fn spec_decode(s: Seq<u8>, pos: int, _args: ()) -> Parsed<UserFormat> {
        match spec_u8(s, pos) {
            Err(e) => Err(e),
            Ok((code, end)) => match UserFormat::spec_from_code(code) {
                Some(v) => Ok((v, end)),
                None => Err(unrecognized_code(pos, code as u32)),
            },
        }
    }

    fn decode(data: &[u8], pos: usize, _args: ()) -> (r: Decoded<UserFormat>) {
        let (code, end) = read_u8(data, pos)?;
        match UserFormat::from_code(code) {
            Some(v) => Ok((v, end)),
            None =>
                Err(DecodeError::UnrecognizedTag { pos: pos as u64, tag: code_tag(code as u32) }),
        }
    }
}

impl Element<()> for UserFormat {
    proof fn lemma_advances(s: Seq<u8>, pos: int, _args: ()) {
    }
}

/// The parameter that an envelope varies.
#[derive(Debug, Clone, Copy, PartialEq, Eq)]
pub enum EnvelopeKind {
    PositionX,
    PositionY,
    PositionZ,
    RotHeading,
    RotPitch,
    RotBank,
    ScaleX,
    ScaleY,
    ScaleZ,
    ColorR,
    ColorG,
    ColorB,
    FalloffX,
    FalloffY,
    FalloffZ,
}

impl View for EnvelopeKind {
    type V = EnvelopeKind;

    open spec fn view(&self) -> EnvelopeKind {
        *self
    }
}

impl EnvelopeKind {
    /// The variant that the number `code` stands for, if there is one.
    pub open spec fn spec_from_code(code: u8) -> Option<EnvelopeKind> {
        if code == 1 {
            Some(EnvelopeKind::PositionX)
        } else if code == 2 {
            Some(EnvelopeKind::PositionY)
        } else if code == 3 {
            Some(EnvelopeKind::PositionZ)
        } else if code == 4 {
            Some(EnvelopeKind::RotHeading)
        } else if code == 5 {
            Some(EnvelopeKind::RotPitch)
        } else if code == 6 {
            Some(EnvelopeKind::RotBank)
        } else if code == 7 {
            Some(EnvelopeKind::ScaleX)
        } else if code == 8 {
            Some(EnvelopeKind::ScaleY)
        } else if code == 9 {
            Some(EnvelopeKind::ScaleZ)
        } else if code == 10 {
            Some(EnvelopeKind::ColorR)
        } else if code == 11 {
            Some(EnvelopeKind::ColorG)
        } else if code == 12 {
            Some(EnvelopeKind::ColorB)
        } else if code == 13 {
            Some(EnvelopeKind::FalloffX)
        } else if code == 14 {
            Some(EnvelopeKind::FalloffY)
        } else if code == 15 {
            Some(EnvelopeKind::FalloffZ)
        } else {
            None
        }
    }

    /// Looks up the variant that the number `code` stands for.
    pub fn from_code(code: u8) -> (r: Option<EnvelopeKind>)
        ensures
            r == Self::spec_from_code(code),
    {
        if code == 1 {
            Some(EnvelopeKind::PositionX)
        } else if code == 2 {
            Some(EnvelopeKind::PositionY)
        } else if code == 3 {
            Some(EnvelopeKind::PositionZ)
        } else if code == 4 {
            Some(EnvelopeKind::RotHeading)
        } else if code == 5 {
            Some(EnvelopeKind::RotPitch)
        } else if code == 6 {
            Some(EnvelopeKind::RotBank)
        } else if code == 7 {
            Some(EnvelopeKind::ScaleX)
        } else if code == 8 {
            Some(EnvelopeKind::ScaleY)
        } else if code == 9 {
            Some(EnvelopeKind::ScaleZ)
        } else if code == 10 {
            Some(EnvelopeKind::ColorR)
        } else if code == 11 {
            Some(EnvelopeKind::ColorG)
        } else if code == 12 {
            Some(EnvelopeKind::ColorB)
        } else if code == 13 {
            Some(EnvelopeKind::FalloffX)
        } else if code == 14 {
            Some(EnvelopeKind::FalloffY)
        } else if code == 15 {
            Some(EnvelopeKind::FalloffZ)
        } else {
            None
        }
    }
}

impl Decode<()> for EnvelopeKind {
    open spec fn spec_decode(s: Seq<u8>, pos: int, _args: ()) -> Parsed<EnvelopeKind> {
        match spec_u8(s, pos) {
            Err(e) => Err(e),
            Ok((code, end)) => match EnvelopeKind::spec_from_code(code) {
                Some(v) => Ok((v, end)),
                None => Err(unrecognized_code(pos, code as u32)),
            },
        }
    }

    fn decode(data: &[u8], pos: usize, _args: ()) -> (r: Decoded<EnvelopeKind>) {
        let (code, end) = read_u8(data, pos)?;
        match EnvelopeKind::from_code(code) {
            Some(v) => Ok((v, end)),
            None =>
                Err(DecodeError::UnrecognizedTag { pos: pos as u64, tag: code_tag(code as u32) }),
        }
    }
}

impl Element<()> for EnvelopeKind {
    proof fn lemma_advances(s: Seq<u8>, pos: int, _args: ()) {
    }
}

} // verus!

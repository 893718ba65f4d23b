use crate::error::DecodeError;
use vstd::prelude::*;

verus! {

/// The outcome of a decoder in contracts: the decoded value together with
/// the cursor position that follows it, or the error that stopped it.
pub type Parsed<V> = Result<(V, int), DecodeError>;

/// The outcome of a decoder at run time.
pub type Decoded<T> = Result<(T, usize), DecodeError>;

/// The error of a read or cursor movement that began at `pos` and left the input.
pub open spec fn io_error(pos: int) -> DecodeError {
    DecodeError::IoError { pos: pos as u64 }
}

/// `r` is the outcome `m`, the value compared as it stands.
pub open spec fn exact<T>(r: Decoded<T>, m: Parsed<T>) -> bool {
    match r {
        Ok((t, p)) => m == Ok::<(T, int), DecodeError>((t, p as int)),
        Err(e) => m == Err::<(T, int), DecodeError>(e),
    }
}

/// `r` is the outcome `m`, the value compared by its view.
pub open spec fn agrees<T: View>(r: Decoded<T>, m: Parsed<T::V>) -> bool {
    match r {
        Ok((t, p)) => m == Ok::<(T::V, int), DecodeError>((t@, p as int)),
        Err(e) => m == Err::<(T::V, int), DecodeError>(e),
    }
}

/// The views of the elements of `v`, in order.
pub open spec fn views<T: View>(v: Seq<T>) -> Seq<T::V> {
    Seq::new(v.len(), |i: int| v[i]@)
}

/// `r` is the outcome `m`, the elements compared by their views.
pub open spec fn agrees_all<T: View>(r: Decoded<Vec<T>>, m: Parsed<Seq<T::V>>) -> bool {
    match r {
        Ok((v, p)) => m == Ok::<(Seq<T::V>, int), DecodeError>((views(v@), p as int)),
        Err(e) => m == Err::<(Seq<T::V>, int), DecodeError>(e),
    }
}

/// A record kind that can be decoded from the input at a cursor position,
/// given the context `A` that its place in the format supplies (the declared
/// length of the enclosing frame, a dimension read earlier, or nothing).
pub trait Decode<A>: Sized + View {
    /// The record that the bytes of `s` from `pos` on hold, with the position
    /// after it, or the error on which decoding stops.
    spec fn spec_decode(s: Seq<u8>, pos: int, args: A) -> Parsed<Self::V>;

    /// Decodes one record at `pos`.
    fn decode(data: &[u8], pos: usize, args: A) -> (r: Decoded<Self>)
        ensures
            agrees(r, Self::spec_decode(data@, pos as int, args)),
    ;
}

/// A record kind whose every successful decode consumes at least one byte
/// and ends inside the input, so that it can be repeated.
pub trait Element<A>: Decode<A> {
    /// A record that decodes ends after the position at which it began,
    /// and inside the input.
    proof fn lemma_advances(s: Seq<u8>, pos: int, args: A)
        ensures
            match Self::spec_decode(s, pos, args) {
                Ok((_, end)) => pos < end <= s.len(),
                Err(_) => true,
            },
    ;
}

/// The unsigned number that two bytes hold, most significant byte first.
pub open spec fn be16(b0: u8, b1: u8) -> u16 {
    (b0 as int * 256 + b1 as int) as u16
}

/// The unsigned number that four bytes hold, most significant byte first.
pub open spec fn be32(b0: u8, b1: u8, b2: u8, b3: u8) -> u32 {
    (((b0 as int * 256 + b1 as int) * 256 + b2 as int) * 256 + b3 as int) as u32
}

/// The signed number whose two's complement encoding in 16 bits is `u`.
pub open spec fn signed16(u: u16) -> i16 {
    if u < 0x8000 {
        u as i16
    } else {
        (u as int - 0x1_0000) as i16
    }
}

/// The signed number whose two's complement encoding in 32 bits is `u`.
pub open spec fn signed32(u: u32) -> i32 {
    if u < 0x8000_0000 {
        u as i32
    } else {
        (u as int - 0x1_0000_0000) as i32
    }
}

/// The input holds `n` bytes from `pos` on.
pub open spec fn available(s: Seq<u8>, pos: int, n: int) -> bool {
    0 <= pos && 0 <= n && pos + n <= s.len()
}

/// The byte at `pos`.
pub open spec fn spec_u8(s: Seq<u8>, pos: int) -> Parsed<u8> {
    if available(s, pos, 1) {
        Ok((s[pos], pos + 1))
    } else {
        Err(io_error(pos))
    }
}

/// The unsigned 16-bit number at `pos`.
pub open spec fn spec_u16(s: Seq<u8>, pos: int) -> Parsed<u16> {
    if available(s, pos, 2) {
        Ok((be16(s[pos], s[pos + 1]), pos + 2))
    } else {
        Err(io_error(pos))
    }
}

/// The unsigned 32-bit number at `pos`.
pub open spec fn spec_u32(s: Seq<u8>, pos: int) -> Parsed<u32> {
    if available(s, pos, 4) {
        Ok((be32(s[pos], s[pos + 1], s[pos + 2], s[pos + 3]), pos + 4))
    } else {
        Err(io_error(pos))
    }
}

/// The signed 16-bit number at `pos`.
pub open spec fn spec_i16(s: Seq<u8>, pos: int) -> Parsed<i16> {
    if available(s, pos, 2) {
        Ok((signed16(be16(s[pos], s[pos + 1])), pos + 2))
    } else {
        Err(io_error(pos))
    }
}

/// The signed 32-bit number at `pos`.
pub open spec fn spec_i32(s: Seq<u8>, pos: int) -> Parsed<i32> {
    if available(s, pos, 4) {
        Ok((signed32(be32(s[pos], s[pos + 1], s[pos + 2], s[pos + 3])), pos + 4))
    } else {
        Err(io_error(pos))
    }
}

/// The four raw bytes at `pos`.
pub open spec fn spec_tag(s: Seq<u8>, pos: int) -> Parsed<[u8; 4]> {
    if available(s, pos, 4) {
        Ok(([s[pos], s[pos + 1], s[pos + 2], s[pos + 3]], pos + 4))
    } else {
        Err(io_error(pos))
    }
}

/// The `n` raw bytes at `pos`.
pub open spec fn spec_bytes(s: Seq<u8>, pos: int, n: int) -> Parsed<Seq<u8>> {
    if available(s, pos, n) {
        Ok((s.subrange(pos, pos + n), pos + n))
    } else {
        Err(io_error(pos))
    }
}

/// The cursor moved `n` bytes forward from `pos`, which has to stay inside the input.
pub open spec fn spec_skip(s: Seq<u8>, pos: int, n: int) -> Result<int, DecodeError> {
    if available(s, pos, n) {
        Ok(pos + n)
    } else {
        Err(io_error(pos))
    }
}

/// The cursor moved from `pos` to the next even position, over one pad byte
/// where `pos` is odd.
pub open spec fn spec_align(s: Seq<u8>, pos: int) -> Result<int, DecodeError> {
    if pos % 2 == 0 {
        Ok(pos)
    } else {
        spec_skip(s, pos, 1)
    }
}

/// Reads one byte.
pub fn read_u8(data: &[u8], pos: usize) -> (r: Decoded<u8>)
    ensures
        exact(r, spec_u8(data@, pos as int)),
{
    if pos < data.len() {
        Ok((data[pos], pos + 1))
    } else {
        Err(DecodeError::IoError { pos: pos as u64 })
    }
}

/// Reads an unsigned 16-bit number, most significant byte first.
pub fn read_u16(data: &[u8], pos: usize) -> (r: Decoded<u16>)
    ensures
        exact(r, spec_u16(data@, pos as int)),
{
    if pos <= data.len() && data.len() - pos >= 2 {
        let v: u16 = (data[pos] as u16) * 256 + (data[pos + 1] as u16);
        Ok((v, pos + 2))
    } else {
        Err(DecodeError::IoError { pos: pos as u64 })
    }
}

/// Reads an unsigned 32-bit number, most significant byte first.
pub fn read_u32(data: &[u8], pos: usize) -> (r: Decoded<u32>)
    ensures
        exact(r, spec_u32(data@, pos as int)),
{
    if pos <= data.len() && data.len() - pos >= 4 {
        let v: u32 = (((data[pos] as u32) * 256 + (data[pos + 1] as u32)) * 256 + (data[pos
            + 2] as u32)) * 256 + (data[pos + 3] as u32);
        Ok((v, pos + 4))
    } else {
        Err(DecodeError::IoError { pos: pos as u64 })
    }
}

/// Reads a signed 16-bit number in two's complement, most significant byte first.
pub fn read_i16(data: &[u8], pos: usize) -> (r: Decoded<i16>)
    ensures
        exact(r, spec_i16(data@, pos as int)),
{
    match read_u16(data, pos) {
        Err(e) => Err(e),
        Ok((u, p)) => {
            let v: i16 = if u < 0x8000 {
                u as i16
            } else {
                (u as i32 - 0x1_0000) as i16
            };
            Ok((v, p))
        },
    }
}

/// Reads a signed 32-bit number in two's complement, most significant byte first.
pub fn read_i32(data: &[u8], pos: usize) -> (r: Decoded<i32>)
    ensures
        exact(r, spec_i32(data@, pos as int)),
{
    match read_u32(data, pos) {
        Err(e) => Err(e),
        Ok((u, p)) => {
            let v: i32 = if u < 0x8000_0000 {
                u as i32
            } else {
                (u as i64 - 0x1_0000_0000) as i32
            };
            Ok((v, p))
        },
    }
}

/// Reads four raw bytes.
pub fn read_tag(data: &[u8], pos: usize) -> (r: Decoded<[u8; 4]>)
    ensures
        exact(r, spec_tag(data@, pos as int)),
{
    if pos <= data.len() && data.len() - pos >= 4 {
        let t: [u8; 4] = [data[pos], data[pos + 1], data[pos + 2], data[pos + 3]];
        Ok((t, pos + 4))
    } else {
        Err(DecodeError::IoError { pos: pos as u64 })
    }
}

/// Reads `n` raw bytes.
pub fn read_bytes(data: &[u8], pos: usize, n: u64) -> (r: Decoded<Vec<u8>>)
    ensures
        agrees(r, spec_bytes(data@, pos as int, n as int)),
{
    if pos <= data.len() && (data.len() - pos) as u64 >= n {
        let count: usize = n as usize;
        let mut out: Vec<u8> = Vec::new();
        let mut i: usize = 0;
        while i < count
            invariant
                pos + count <= data.len(),
                i <= count,
                out@ == data@.subrange(pos as int, pos + i),
            decreases count - i,
        {
            out.push(data[pos + i]);
            i = i + 1;
            assert(out@ =~= data@.subrange(pos as int, pos + i));
        }
        Ok((out, pos + count))
    } else {
        Err(DecodeError::IoError { pos: pos as u64 })
    }
}

/// Moves the cursor `n` bytes forward.
pub fn skip(data: &[u8], pos: usize, n: u64) -> (r: Result<usize, DecodeError>)
    ensures
        match r {
            Ok(p) => spec_skip(data@, pos as int, n as int) == Ok::<int, DecodeError>(p as int),
            Err(e) => spec_skip(data@, pos as int, n as int) == Err::<int, DecodeError>(e),
        },
{
    if pos <= data.len() && (data.len() - pos) as u64 >= n {
        Ok(pos + n as usize)
    } else {
        Err(DecodeError::IoError { pos: pos as u64 })
    }
}

/// Moves the cursor to the next even position.
pub fn align(data: &[u8], pos: usize) -> (r: Result<usize, DecodeError>)
    ensures
        match r {
            Ok(p) => spec_align(data@, pos as int) == Ok::<int, DecodeError>(p as int),
            Err(e) => spec_align(data@, pos as int) == Err::<int, DecodeError>(e),
        },
{
    if pos % 2 == 0 {
        Ok(pos)
    } else {
        skip(data, pos, 1)
    }
}

/// An IEEE 754 single-precision number, held by its 32-bit pattern as the
/// format stores it. Nothing here computes with such numbers.
#[derive(Debug, Clone, Copy, PartialEq, Eq, Structural)]
pub struct Float {
    pub bits: u32,
}

impl View for Float {
    type V = Float;

    open spec fn view(&self) -> Float {
        *self
    }
}

/// The single-precision number at `pos`.
pub open spec fn spec_float(s: Seq<u8>, pos: int) -> Parsed<Float> {
    match spec_u32(s, pos) {
        Err(e) => Err(e),
        Ok((bits, end)) => Ok((Float { bits }, end)),
    }
}

/// Three single-precision numbers one after another.
pub open spec fn spec_vec3(s: Seq<u8>, pos: int) -> Parsed<[Float; 3]> {
    match spec_float(s, pos) {
        Err(e) => Err(e),
        Ok((x, p1)) => match spec_float(s, p1) {
            Err(e) => Err(e),
            Ok((y, p2)) => match spec_float(s, p2) {
                Err(e) => Err(e),
                Ok((z, end)) => Ok(([x, y, z], end)),
            },
        },
    }
}

/// Reads a single-precision number.
pub fn read_float(data: &[u8], pos: usize) -> (r: Decoded<Float>)
    ensures
        exact(r, spec_float(data@, pos as int)),
{
    let (bits, end) = read_u32(data, pos)?;
    Ok((Float { bits }, end))
}

/// Reads three single-precision numbers.
pub fn read_vec3(data: &[u8], pos: usize) -> (r: Decoded<[Float; 3]>)
    ensures
        exact(r, spec_vec3(data@, pos as int)),
{
    let (x, p1) = read_float(data, pos)?;
    let (y, p2) = read_float(data, p1)?;
    let (z, p3) = read_float(data, p2)?;
    Ok(([x, y, z], p3))
}

impl Decode<()> for Float {
    open spec fn spec_decode(s: Seq<u8>, pos: int, _args: ()) -> Parsed<Float> {
        spec_float(s, pos)
    }

    fn decode(data: &[u8], pos: usize, _args: ()) -> (r: Decoded<Float>) {
        read_float(data, pos)
    }
}

impl Element<()> for Float {
    proof fn lemma_advances(s: Seq<u8>, pos: int, _args: ()) {
    }
}

impl Decode<()> for u8 {
    open spec fn spec_decode(s: Seq<u8>, pos: int, _args: ()) -> Parsed<u8> {
        spec_u8(s, pos)
    }

    fn decode(data: &[u8], pos: usize, _args: ()) -> (r: Decoded<u8>) {
        read_u8(data, pos)
    }
}

impl Element<()> for u8 {
    proof fn lemma_advances(s: Seq<u8>, pos: int, _args: ()) {
    }
}

impl Decode<()> for u16 {
    open spec fn spec_decode(s: Seq<u8>, pos: int, _args: ()) -> Parsed<u16> {
        spec_u16(s, pos)
    }

    fn decode(data: &[u8], pos: usize, _args: ()) -> (r: Decoded<u16>) {
        read_u16(data, pos)
    }
}

impl Element<()> for u16 {
    proof fn lemma_advances(s: Seq<u8>, pos: int, _args: ()) {
    }
}

impl Decode<()> for u32 {
    open spec fn spec_decode(s: Seq<u8>, pos: int, _args: ()) -> Parsed<u32> {
        spec_u32(s, pos)
    }

    fn decode(data: &[u8], pos: usize, _args: ()) -> (r: Decoded<u32>) {
        read_u32(data, pos)
    }
}

impl Element<()> for u32 {
    proof fn lemma_advances(s: Seq<u8>, pos: int, _args: ()) {
    }
}

impl Decode<()> for i16 {
    open spec fn spec_decode(s: Seq<u8>, pos: int, _args: ()) -> Parsed<i16> {
        spec_i16(s, pos)
    }

    fn decode(data: &[u8], pos: usize, _args: ()) -> (r: Decoded<i16>) {
        read_i16(data, pos)
    }
}

impl Element<()> for i16 {
    proof fn lemma_advances(s: Seq<u8>, pos: int, _args: ()) {
    }
}

impl Decode<()> for i32 {
    open spec fn spec_decode(s: Seq<u8>, pos: int, _args: ()) -> Parsed<i32> {
        spec_i32(s, pos)
    }

    fn decode(data: &[u8], pos: usize, _args: ()) -> (r: Decoded<i32>) {
        read_i32(data, pos)
    }
}

impl Element<()> for i32 {
    proof fn lemma_advances(s: Seq<u8>, pos: int, _args: ()) {
    }
}

/// The two groups of four bytes are the same.
pub open spec fn same_tag(a: [u8; 4], b: [u8; 4]) -> bool {
    a[0] == b[0] && a[1] == b[1] && a[2] == b[2] && a[3] == b[3]
}

/// Compares two groups of four bytes.
pub fn tags_equal(a: &[u8; 4], b: &[u8; 4]) -> (r: bool)
    ensures
        r == same_tag(*a, *b),
{
    a[0] == b[0] && a[1] == b[1] && a[2] == b[2] && a[3] == b[3]
}

/// The position after the four marker bytes `expected`, which have to
/// stand at `pos`.
pub open spec fn spec_magic(s: Seq<u8>, pos: int, expected: [u8; 4]) -> Result<int, DecodeError> {
    match spec_tag(s, pos) {
        Err(e) => Err(e),
        Ok((actual, end)) => if same_tag(actual, expected) {
            Ok(end)
        } else {
            Err(DecodeError::MagicMismatch { pos: pos as u64, expected, actual })
        },
    }
}

/// Reads four bytes and holds them against the marker `expected`.
pub fn read_magic(data: &[u8], pos: usize, expected: [u8; 4]) -> (r: Result<usize, DecodeError>)
    ensures
        match r {
            Ok(p) => spec_magic(data@, pos as int, expected) == Ok::<int, DecodeError>(p as int),
            Err(e) => spec_magic(data@, pos as int, expected) == Err::<int, DecodeError>(e),
        },
{
    let (actual, end) = read_tag(data, pos)?;
    if tags_equal(&actual, &expected) {
        Ok(end)
    } else {
        Err(DecodeError::MagicMismatch { pos: pos as u64, expected, actual })
    }
}

/// The bytes of the zero-terminated string at `pos`, without the
/// terminator, and the position after the terminator.
pub open spec fn spec_null_string(s: Seq<u8>, pos: int) -> Parsed<Seq<u8>>
    decreases s.len() - pos,
{
    if pos < 0 || pos >= s.len() {
        Err(io_error(pos))
    } else if s[pos] == 0 {
        Ok((Seq::empty(), pos + 1))
    } else {
        match spec_null_string(s, pos + 1) {
            Err(e) => Err(e),
            Ok((rest, end)) => Ok((seq![s[pos]] + rest, end)),
        }
    }
}

/// A zero-terminated string takes up one byte more than it holds.
pub proof fn lemma_null_string_extent(s: Seq<u8>, pos: int)
    ensures
        spec_null_string(s, pos) matches Ok((bytes, end)) ==> end == pos + bytes.len() + 1 && end
            <= s.len() && bytes == s.subrange(pos, end - 1),
    decreases s.len() - pos,
{
    if pos < 0 || pos >= s.len() {
    } else if s[pos] == 0 {
        assert(s.subrange(pos, pos) =~= Seq::<u8>::empty());
    } else {
        lemma_null_string_extent(s, pos + 1);
        match spec_null_string(s, pos + 1) {
            Err(_) => {},
            Ok((rest, end)) => {
                assert(seq![s[pos]] + rest =~= s.subrange(pos, end - 1));
            },
        }
    }
}

/// Reads a zero-terminated string.
pub fn read_null_string(data: &[u8], pos: usize) -> (r: Decoded<Vec<u8>>)
    ensures
        agrees(r, spec_null_string(data@, pos as int)),
        r matches Ok((bytes, end)) ==> end == pos + bytes.len() + 1 && end <= data.len(),
{
    let mut buf: Vec<u8> = Vec::new();
    let mut cur: usize = pos;
    loop
        invariant
            pos <= cur,
            match spec_null_string(data@, cur as int) {
                Ok((rest, end)) => spec_null_string(data@, pos as int) == Ok::<
                    (Seq<u8>, int),
                    DecodeError,
                >((buf@ + rest, end)),
                Err(e) => spec_null_string(data@, pos as int) == Err::<(Seq<u8>, int), DecodeError>(
                    e,
                ),
            },
        decreases data.len() - cur,
    {
        if cur >= data.len() {
            return Err(DecodeError::IoError { pos: cur as u64 });
        }
        let b: u8 = data[cur];
        if b == 0 {
            proof {
                assert(buf@ + Seq::<u8>::empty() =~= buf@);
                lemma_null_string_extent(data@, pos as int);
            }
            return Ok((buf, cur + 1));
        }
        let ghost before = buf@;
        buf.push(b);
        proof {
            match spec_null_string(data@, cur + 1) {
                Ok((rest, _)) => {
                    assert(before + (seq![b] + rest) =~= buf@ + rest);
                },
                Err(_) => {},
            }
        }
        cur = cur + 1;
    }
}

/// The zero-terminated string at `pos`, and the next even position after
/// its terminator.
pub open spec fn spec_aligned_null_string(s: Seq<u8>, pos: int) -> Parsed<Seq<u8>> {
    match spec_null_string(s, pos) {
        Err(e) => Err(e),
        Ok((bytes, after)) => match spec_align(s, after) {
            Err(e) => Err(e),
            Ok(end) => Ok((bytes, end)),
        },
    }
}

/// Reads a zero-terminated string and moves the cursor to the next even position.
pub fn read_aligned_null_string(data: &[u8], pos: usize) -> (r: Decoded<Vec<u8>>)
    ensures
        agrees(r, spec_aligned_null_string(data@, pos as int)),
        r matches Ok((bytes, end)) ==> pos + bytes.len() < end <= data.len(),
{
    let (bytes, after) = read_null_string(data, pos)?;
    let end = align(data, after)?;
    Ok((bytes, end))
}

/// The four bytes of `code`, most significant byte first.
pub open spec fn spec_code_tag(code: u32) -> [u8; 4] {
    [
        (code / 0x100_0000) as u8,
        ((code / 0x1_0000) % 256) as u8,
        ((code / 256) % 256) as u8,
        (code % 256) as u8,
    ]
}

/// Writes `code` as four bytes, most significant byte first.
pub fn code_tag(code: u32) -> (r: [u8; 4])
    ensures
        r == spec_code_tag(code),
{
    [
        (code / 0x100_0000) as u8,
        ((code / 0x1_0000) % 256) as u8,
        ((code / 256) % 256) as u8,
        (code % 256) as u8,
    ]
}

/// The error for a number read at `pos` that stands for no variant of the
/// enumeration expected there.
pub open spec fn unrecognized_code(pos: int, code: u32) -> DecodeError {
    DecodeError::UnrecognizedTag { pos: pos as u64, tag: spec_code_tag(code) }
}

/// The four bytes that spell a tag in ASCII.
pub open spec fn spec_ascii(a: char, b: char, c: char, d: char) -> [u8; 4] {
    [a as u8, b as u8, c as u8, d as u8]
}

/// The four bytes that spell a tag in ASCII.
#[verifier::when_used_as_spec(spec_ascii)]
pub fn ascii(a: char, b: char, c: char, d: char) -> (r: [u8; 4])
    ensures
        r == spec_ascii(a, b, c, d),
{
    [a as u8, b as u8, c as u8, d as u8]
}

/// Four single-precision numbers one after another.
pub open spec fn spec_vec4(s: Seq<u8>, pos: int) -> Parsed<[Float; 4]> {
    match spec_vec3(s, pos) {
        Err(e) => Err(e),
        Ok((v, p)) => match spec_float(s, p) {
            Err(e) => Err(e),
            Ok((w, end)) => Ok(([v[0], v[1], v[2], w], end)),
        },
    }
}

/// Reads four single-precision numbers.
pub fn read_vec4(data: &[u8], pos: usize) -> (r: Decoded<[Float; 4]>)
    ensures
        exact(r, spec_vec4(data@, pos as int)),
{
    let (v, p) = read_vec3(data, pos)?;
    let (w, end) = read_float(data, p)?;
    Ok(([v[0], v[1], v[2], w], end))
}

/// The number zero.
pub open spec fn spec_zero() -> Float {
    Float { bits: 0 }
}

/// The number zero.
#[verifier::when_used_as_spec(spec_zero)]
pub fn zero() -> (r: Float)
    ensures
        r == spec_zero(),
{
    Float { bits: 0 }
}

/// A single-precision number that is stored only where `present` holds,
/// and is zero where it is not stored.
pub open spec fn spec_float_if(present: bool, s: Seq<u8>, pos: int) -> Parsed<Float> {
    if present {
        spec_float(s, pos)
    } else {
        Ok((zero(), pos))
    }
}

/// Reads a single-precision number that is stored only where `present` holds.
pub fn read_float_if(present: bool, data: &[u8], pos: usize) -> (r: Decoded<Float>)
    ensures
        exact(r, spec_float_if(present, data@, pos as int)),
{
    if present {
        read_float(data, pos)
    } else {
        Ok((zero(), pos))
    }
}

/// Three single-precision numbers that are stored only where `present`
/// holds, and are zero where they are not stored.
pub open spec fn spec_vec3_if(present: bool, s: Seq<u8>, pos: int) -> Parsed<[Float; 3]> {
    if present {
        spec_vec3(s, pos)
    } else {
        Ok(([zero(), zero(), zero()], pos))
    }
}

/// Reads three single-precision numbers that are stored only where `present` holds.
pub fn read_vec3_if(present: bool, data: &[u8], pos: usize) -> (r: Decoded<[Float; 3]>)
    ensures
        exact(r, spec_vec3_if(present, data@, pos as int)),
{
    if present {
        read_vec3(data, pos)
    } else {
        Ok(([zero(), zero(), zero()], pos))
    }
}

/// An unsigned 16-bit number that is stored only where `present` holds.
pub open spec fn spec_u16_if(present: bool, s: Seq<u8>, pos: int) -> Parsed<Option<u16>> {
    if present {
        match spec_u16(s, pos) {
            Err(e) => Err(e),
            Ok((v, end)) => Ok((Some(v), end)),
        }
    } else {
        Ok((None, pos))
    }
}

/// Reads an unsigned 16-bit number that is stored only where `present` holds.
pub fn read_u16_if(present: bool, data: &[u8], pos: usize) -> (r: Decoded<Option<u16>>)
    ensures
        exact(r, spec_u16_if(present, data@, pos as int)),
{
    if present {
        let (v, end) = read_u16(data, pos)?;
        Ok((Some(v), end))
    } else {
        Ok((None, pos))
    }
}

} // verus!

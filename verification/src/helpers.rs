use crate::decode::{
    agrees, agrees_all, available, io_error, views, Decode, Decoded, Element, Float, Parsed,
};
use crate::error::DecodeError;
use crate::lwo2::{spec_vx, vx};
use vstd::prelude::*;
use vstd::utf8::{decode_utf8, valid_utf8};

verus! {

/// The bytes of the padded string at `pos`, before they are read as text.
/// Bytes are taken one at a time and every non-zero byte is kept. A zero byte
/// ends the string only where the cursor position after it is even; a zero
/// byte that leaves the cursor at an odd position is dropped and the scan
/// goes on. Positions are absolute offsets into the input.
pub open spec fn spec_padded_bytes(s: Seq<u8>, pos: int) -> Parsed<Seq<u8>>
    decreases s.len() - pos,
{
    if pos < 0 || pos >= s.len() {
        Err(io_error(pos))
    } else if s[pos] != 0 {
        match spec_padded_bytes(s, pos + 1) {
            Err(e) => Err(e),
            Ok((rest, end)) => Ok((seq![s[pos]] + rest, end)),
        }
    } else if (pos + 1) % 2 == 0 {
        Ok((Seq::empty(), pos + 1))
    } else {
        spec_padded_bytes(s, pos + 1)
    }
}

/// The text that the bytes of a padded string encode. Bytes that are no
/// UTF-8 give an encoding error that carries `pos`, the offset at which the
/// string began.
pub open spec fn spec_text(bytes: Seq<u8>, pos: int) -> Result<Seq<char>, DecodeError> {
    if valid_utf8(bytes) {
        Ok(decode_utf8(bytes))
    } else {
        Err(DecodeError::EncodingError { pos: pos as u64 })
    }
}

/// The padded string at `pos`: its bytes read as UTF-8 text.
pub open spec fn spec_lwo_null_string(s: Seq<u8>, pos: int) -> Parsed<Seq<char>> {
    match spec_padded_bytes(s, pos) {
        Err(e) => Err(e),
        Ok((bytes, end)) => match spec_text(bytes, pos) {
            Err(e) => Err(e),
            Ok(text) => Ok((text, end)),
        },
    }
}

/// A padded string ends after its start, inside the input, and holds no
/// more bytes than were consumed.
pub proof fn lemma_padded_bytes_bounds(s: Seq<u8>, pos: int)
    ensures
        match spec_padded_bytes(s, pos) {
            Ok((bytes, end)) => pos < end <= s.len() && bytes.len() < end - pos && end % 2 == 0,
            Err(e) => e == io_error(if pos < 0 || pos > s.len() { pos } else { s.len() as int }),
        },
    decreases s.len() - pos,
{
    if pos < 0 || pos >= s.len() {
    } else {
        lemma_padded_bytes_bounds(s, pos + 1);
    }
}

/// Reads the bytes of a padded string.
pub fn padded_bytes(data: &[u8], pos: usize) -> (r: Decoded<Vec<u8>>)
    ensures
        agrees(r, spec_padded_bytes(data@, pos as int)),
        r matches Ok((bytes, end)) ==> pos < end <= data.len() && bytes.len() < end - pos,
{
    let mut buf: Vec<u8> = Vec::new();
    let mut cur: usize = pos;
    loop
        invariant
            pos <= cur,
            match spec_padded_bytes(data@, cur as int) {
                Ok((rest, end)) => spec_padded_bytes(data@, pos as int) == Ok::<
                    (Seq<u8>, int),
                    DecodeError,
                >((buf@ + rest, end)),
                Err(e) => spec_padded_bytes(data@, pos as int) == Err::<
                    (Seq<u8>, int),
                    DecodeError,
                >(e),
            },
        decreases data.len() - cur,
    {
        if cur >= data.len() {
            return Err(DecodeError::IoError { pos: cur as u64 });
        }
        let b: u8 = data[cur];
        let ghost before = buf@;
        if b != 0 {
            buf.push(b);
            proof {
                match spec_padded_bytes(data@, cur + 1) {
                    Ok((rest, end)) => {
                        assert(before + (seq![b] + rest) =~= buf@ + rest);
                    },
                    Err(_) => {},
                }
            }
        } else if (cur + 1) % 2 == 0 {
            proof {
                assert(buf@ + Seq::<u8>::empty() =~= buf@);
                lemma_padded_bytes_bounds(data@, pos as int);
            }
            return Ok((buf, cur + 1));
        }
        cur = cur + 1;
    }
}

/// `String::from_utf8` of std: the text that `bytes` encode, where they
/// are valid UTF-8, and nothing where they are not.
#[verifier::external_body]
fn text_from_utf8(bytes: Vec<u8>) -> (r: Option<String>)
    ensures
        r.is_some() == valid_utf8(bytes@),
        r matches Some(text) ==> text@ == decode_utf8(bytes@),
{
    String::from_utf8(bytes).ok()
}

/// Reads the bytes that the scan of a padded string has collected as
/// text. `pos` is the offset at which the string began.
pub fn padded_text(bytes: Vec<u8>, pos: usize) -> (r: Result<String, DecodeError>)
    ensures
        match r {
            Ok(text) => spec_text(bytes@, pos as int) == Ok::<Seq<char>, DecodeError>(text@),
            Err(e) => spec_text(bytes@, pos as int) == Err::<Seq<char>, DecodeError>(e),
        },
{
    match text_from_utf8(bytes) {
        Some(text) => Ok(text),
        None => Err(DecodeError::EncodingError { pos: pos as u64 }),
    }
}

/// Reads a padded string: a zero-terminated string whose terminator has to
/// leave the cursor at an even position.
pub fn lwo_null_string(data: &[u8], pos: usize) -> (r: Decoded<String>)
    ensures
        agrees(r, spec_lwo_null_string(data@, pos as int)),
        r matches Ok((_, end)) ==> pos < end <= data.len(),
{
    let (bytes, end) = padded_bytes(data, pos)?;
    let text = padded_text(bytes, pos)?;
    Ok((text, end))
}

impl Decode<()> for String {
    open spec fn spec_decode(s: Seq<u8>, pos: int, _args: ()) -> Parsed<Seq<char>> {
        spec_lwo_null_string(s, pos)
    }

    fn decode(data: &[u8], pos: usize, _args: ()) -> (r: Decoded<String>) {
        lwo_null_string(data, pos)
    }
}

impl Element<()> for String {
    proof fn lemma_advances(s: Seq<u8>, pos: int, _args: ()) {
        lemma_padded_bytes_bounds(s, pos);
    }
}

/// The records decoded one after another from `pos` on, as long as fewer than
/// `limit` bytes lie between `start` and the cursor. The budget is tested
/// before each record and never after it: a record that begins inside the
/// budget is decoded whole, and the cursor may end beyond `start + limit`.
pub open spec fn spec_until_from<T: Element<A>, A>(
    s: Seq<u8>,
    start: int,
    limit: int,
    pos: int,
    args: A,
) -> Parsed<Seq<T::V>>
    decreases s.len() - pos,
    via spec_until_from_decreases::<T, A>
{
    if pos - start >= limit {
        Ok((Seq::empty(), pos))
    } else {
        match T::spec_decode(s, pos, args) {
            Err(e) => Err(e),
            Ok((first, next)) => match spec_until_from::<T, A>(s, start, limit, next, args) {
                Err(e) => Err(e),
                Ok((rest, end)) => Ok((seq![first] + rest, end)),
            },
        }
    }
}

#[via_fn]
proof fn spec_until_from_decreases<T: Element<A>, A>(
    s: Seq<u8>,
    start: int,
    limit: int,
    pos: int,
    args: A,
) {
    T::lemma_advances(s, pos, args);
}

/// The sequence of records that fills a budget of `limit` bytes counted from `pos`.
pub open spec fn spec_until_size_limit<T: Element<A>, A>(
    s: Seq<u8>,
    pos: int,
    limit: int,
    args: A,
) -> Parsed<Seq<T::V>> {
    spec_until_from::<T, A>(s, pos, limit, pos, args)
}

/// A size-bounded sequence ends at or after the budget, never before it, and
/// holds no record where the budget is empty.
pub proof fn lemma_until_size_limit_end<T: Element<A>, A>(
    s: Seq<u8>,
    start: int,
    limit: int,
    pos: int,
    args: A,
)
    requires
        start <= pos,
    ensures
        match spec_until_from::<T, A>(s, start, limit, pos, args) {
            Ok((items, end)) => pos <= end && end - start >= limit && (items.len() == 0 <==> pos
                - start >= limit) && (items.len() > 0 ==> end <= s.len()),
            Err(_) => pos - start < limit,
        },
    decreases s.len() - pos,
{
    if pos - start >= limit {
    } else {
        T::lemma_advances(s, pos, args);
        match T::spec_decode(s, pos, args) {
            Err(_) => {},
            Ok((_, next)) => {
                lemma_until_size_limit_end::<T, A>(s, start, limit, next, args);
            },
        }
    }
}

/// Decodes records until `limit` bytes or more have been consumed from `pos`.
pub fn until_size_limit<T: Element<A>, A: Copy>(data: &[u8], pos: usize, limit: u64, args: A) -> (r:
    Decoded<Vec<T>>)
    ensures
        agrees_all(r, spec_until_size_limit::<T, A>(data@, pos as int, limit as int, args)),
        r matches Ok((_, end)) ==> pos <= end,
{
    let mut items: Vec<T> = Vec::new();
    let mut cur: usize = pos;
    while ((cur - pos) as u64) < limit
        invariant
            pos <= cur,
            match spec_until_from::<T, A>(data@, pos as int, limit as int, cur as int, args) {
                Ok((rest, end)) => spec_until_size_limit::<T, A>(
                    data@,
                    pos as int,
                    limit as int,
                    args,
                ) == Ok::<(Seq<T::V>, int), DecodeError>((views(items@) + rest, end)),
                Err(e) => spec_until_size_limit::<T, A>(data@, pos as int, limit as int, args)
                    == Err::<(Seq<T::V>, int), DecodeError>(e),
            },
        decreases data.len() - cur,
    {
        proof {
            T::lemma_advances(data@, cur as int, args);
        }
        let ghost before = views(items@);
        let (item, next) = T::decode(data, cur, args)?;
        items.push(item);
        proof {
            assert(views(items@) =~= before + seq![item@]);
            match spec_until_from::<T, A>(data@, pos as int, limit as int, next as int, args) {
                Ok((rest, _)) => {
                    assert(before + (seq![item@] + rest) =~= views(items@) + rest);
                },
                Err(_) => {},
            }
        }
        cur = next;
    }
    proof {
        assert(views(items@) + Seq::<T::V>::empty() =~= views(items@));
    }
    Ok((items, cur))
}

/// The call number `i` of a size-bounded run of the element decoder `f`
/// that began at `start`: it was made at the cursor position `stops[i]` with
/// fewer than `limit` bytes consumed, and returned `items[i]` and the
/// position `stops[i + 1]`.
pub open spec fn is_step<T, F: Fn(&[u8], usize) -> Decoded<T>>(
    f: F,
    data: &[u8],
    start: usize,
    limit: u64,
    stops: Seq<usize>,
    items: Seq<T>,
    i: int,
) -> bool {
    &&& start <= stops[i]
    &&& stops[i] - start < limit
    &&& call_ensures(f, (data, stops[i]), Ok::<(T, usize), DecodeError>((items[i], stops[i + 1])))
}

/// `stops` and `items` record the successful calls of a size-bounded run of
/// the element decoder `f` that began at `start`: `stops` holds the cursor
/// position before each call and after the last one, `items` what the calls returned.
pub open spec fn is_run<T, F: Fn(&[u8], usize) -> Decoded<T>>(
    f: F,
    data: &[u8],
    start: usize,
    limit: u64,
    stops: Seq<usize>,
    items: Seq<T>,
) -> bool {
    &&& stops.len() == items.len() + 1
    &&& stops[0] == start
    &&& forall|i: int|
        0 <= i < items.len() ==> #[trigger] is_step(f, data, start, limit, stops, items, i)
}

/// A size-bounded run of `f` from `start` that returned `items` and left
/// the cursor at `end`: every call succeeded, and the run stopped at the
/// first position at which `limit` bytes or more were consumed.
pub open spec fn run_completes<T, F: Fn(&[u8], usize) -> Decoded<T>>(
    f: F,
    data: &[u8],
    start: usize,
    limit: u64,
    items: Seq<T>,
    end: usize,
) -> bool {
    exists|stops: Seq<usize>|
        {
            &&& #[trigger] is_run(f, data, start, limit, stops, items)
            &&& stops.last() == end
            &&& end - start >= limit
        }
}

/// A size-bounded run of `f` from `start` that stopped on the error `e`:
/// after some successful calls, one that began inside the budget failed with `e`.
pub open spec fn run_fails<T, F: Fn(&[u8], usize) -> Decoded<T>>(
    f: F,
    data: &[u8],
    start: usize,
    limit: u64,
    e: DecodeError,
) -> bool {
    exists|stops: Seq<usize>, items: Seq<T>|
        {
            &&& #[trigger] is_run(f, data, start, limit, stops, items)
            &&& start <= stops.last()
            &&& stops.last() - start < limit
            &&& call_ensures(f, (data, stops.last()), Err::<(T, usize), DecodeError>(e))
        }
}

/// Calls the element decoder `reader_fn` until `limit` bytes or more have
/// been consumed from `pos`, and collects what it returns. The decoder is
/// handed the whole input and the cursor position. At the positions inside
/// the budget, the only ones at which it is called, it has to be callable
/// and, where it succeeds, to advance the cursor and stay inside the input.
pub fn until_size_limit_with<T, F: Fn(&[u8], usize) -> Decoded<T>>(
    data: &[u8],
    pos: usize,
    limit: u64,
    reader_fn: F,
) -> (r: Decoded<Vec<T>>)
    requires
        forall|p: usize| pos <= p && p - pos < limit ==> call_requires(reader_fn, (data, p)),
        forall|p: usize, v: T, end: usize|
            pos <= p && p - pos < limit && #[trigger] call_ensures(
                reader_fn,
                (data, p),
                Ok::<(T, usize), DecodeError>((v, end)),
            ) ==> p < end <= data.len(),
    ensures
        match r {
            Ok((items, end)) => run_completes(reader_fn, data, pos, limit, items@, end),
            Err(e) => run_fails::<T, F>(reader_fn, data, pos, limit, e),
        },
{
    let mut items: Vec<T> = Vec::new();
    let mut cur: usize = pos;
    let ghost mut stops: Seq<usize> = seq![pos];
    while ((cur - pos) as u64) < limit
        invariant
            pos <= cur,
            stops.last() == cur,
            is_run(reader_fn, data, pos, limit, stops, items@),
            forall|p: usize| pos <= p && p - pos < limit ==> call_requires(reader_fn, (data, p)),
            forall|p: usize, v: T, end: usize|
                pos <= p && p - pos < limit && #[trigger] call_ensures(
                    reader_fn,
                    (data, p),
                    Ok::<(T, usize), DecodeError>((v, end)),
                ) ==> p < end <= data.len(),
        decreases data.len() - cur,
    {
        let ghost old_stops = stops;
        let ghost old_items = items@;
        match reader_fn(data, cur) {
            Err(e) => {
                return Err(e);
            },
            Ok((item, next)) => {
                items.push(item);
                proof {
                    stops = stops.push(next);
                    assert forall|i: int| 0 <= i < items@.len() implies #[trigger] is_step(
                        reader_fn,
                        data,
                        pos,
                        limit,
                        stops,
                        items@,
                        i,
                    ) by {
                        if i < old_items.len() {
                            assert(is_step(reader_fn, data, pos, limit, old_stops, old_items, i));
                        }
                    }
                }
                cur = next;
            },
        }
    }
    Ok((items, cur))
}

/// `n` records decoded one after another from `pos` on.
pub open spec fn spec_count<T: Decode<A>, A>(s: Seq<u8>, pos: int, n: nat, args: A) -> Parsed<
    Seq<T::V>,
>
    decreases n,
{
    if n == 0 {
        Ok((Seq::empty(), pos))
    } else {
        match T::spec_decode(s, pos, args) {
            Err(e) => Err(e),
            Ok((first, next)) => match spec_count::<T, A>(s, next, (n - 1) as nat, args) {
                Err(e) => Err(e),
                Ok((rest, end)) => Ok((seq![first] + rest, end)),
            },
        }
    }
}

/// Decodes `n` records one after another.
pub fn count<T: Decode<A>, A: Copy>(data: &[u8], pos: usize, n: u64, args: A) -> (r: Decoded<
    Vec<T>,
>)
    ensures
        agrees_all(r, spec_count::<T, A>(data@, pos as int, n as nat, args)),
        r matches Ok((items, _)) ==> items.len() == n,
{
    let mut items: Vec<T> = Vec::new();
    let mut cur: usize = pos;
    let mut left: u64 = n;
    while left > 0
        invariant
            left <= n,
            items.len() == n - left,
            match spec_count::<T, A>(data@, cur as int, left as nat, args) {
                Ok((rest, end)) => spec_count::<T, A>(data@, pos as int, n as nat, args) == Ok::<
                    (Seq<T::V>, int),
                    DecodeError,
                >((views(items@) + rest, end)),
                Err(e) => spec_count::<T, A>(data@, pos as int, n as nat, args) == Err::<
                    (Seq<T::V>, int),
                    DecodeError,
                >(e),
            },
        decreases left,
    {
        let ghost before = views(items@);
        let (item, next) = T::decode(data, cur, args)?;
        items.push(item);
        proof {
            assert(views(items@) =~= before + seq![item@]);
            match spec_count::<T, A>(data@, next as int, (left - 1) as nat, args) {
                Ok((rest, _)) => {
                    assert(before + (seq![item@] + rest) =~= views(items@) + rest);
                },
                Err(_) => {},
            }
        }
        cur = next;
        left = left - 1;
    }
    proof {
        assert(views(items@) + Seq::<T::V>::empty() =~= views(items@));
    }
    Ok((items, cur))
}

/// `n` variable-width indices read one after another from `pos` on.
pub open spec fn spec_count_with_vx(s: Seq<u8>, pos: int, n: nat) -> Parsed<Seq<u32>>
    decreases n,
{
    if n == 0 {
        Ok((Seq::empty(), pos))
    } else {
        match spec_vx(s, pos) {
            Err(e) => Err(e),
            Ok((first, next)) => match spec_count_with_vx(s, next, (n - 1) as nat) {
                Err(e) => Err(e),
                Ok((rest, end)) => Ok((seq![first] + rest, end)),
            },
        }
    }
}

/// Reads `n` variable-width indices.
pub fn count_with_vx(data: &[u8], pos: usize, n: usize) -> (r: Decoded<Vec<u32>>)
    ensures
        agrees(r, spec_count_with_vx(data@, pos as int, n as nat)),
        r matches Ok((items, end)) ==> items.len() == n && pos <= end,
{
    let mut items: Vec<u32> = Vec::new();
    let mut cur: usize = pos;
    let mut left: usize = n;
    while left > 0
        invariant
            left <= n,
            pos <= cur,
            items.len() == n - left,
            match spec_count_with_vx(data@, cur as int, left as nat) {
                Ok((rest, end)) => spec_count_with_vx(data@, pos as int, n as nat) == Ok::<
                    (Seq<u32>, int),
                    DecodeError,
                >((items@ + rest, end)),
                Err(e) => spec_count_with_vx(data@, pos as int, n as nat) == Err::<
                    (Seq<u32>, int),
                    DecodeError,
                >(e),
            },
        decreases left,
    {
        let ghost before = items@;
        let (item, next) = vx(data, cur)?;
        items.push(item);
        proof {
            match spec_count_with_vx(data@, next as int, (left - 1) as nat) {
                Ok((rest, _)) => {
                    assert(before + (seq![item] + rest) =~= items@ + rest);
                },
                Err(_) => {},
            }
        }
        cur = next;
        left = left - 1;
    }
    proof {
        assert(items@ + Seq::<u32>::empty() =~= items@);
    }
    Ok((items, cur))
}

/// A counted sequence of records that each advance the cursor ends at or
/// after its start, and inside the input where it began there.
pub proof fn lemma_count_bounds<T: Element<A>, A>(s: Seq<u8>, pos: int, n: nat, args: A)
    ensures
        spec_count::<T, A>(s, pos, n, args) matches Ok((_, end)) ==> pos <= end && (pos <= s.len()
            ==> end <= s.len()),
    decreases n,
{
    if n > 0 {
        T::lemma_advances(s, pos, args);
        match T::spec_decode(s, pos, args) {
            Err(_) => {},
            Ok((_, next)) => {
                lemma_count_bounds::<T, A>(s, next, (n - 1) as nat, args);
            },
        }
    }
}

/// A counted sequence of variable-width indices ends at or after its
/// start, and inside the input where it began there.
pub proof fn lemma_count_with_vx_bounds(s: Seq<u8>, pos: int, n: nat)
    ensures
        spec_count_with_vx(s, pos, n) matches Ok((items, end)) ==> pos <= end && (pos <= s.len()
            ==> end <= s.len()) && items.len() == n,
    decreases n,
{
    if n > 0 {
        match spec_vx(s, pos) {
            Err(_) => {},
            Ok((_, next)) => {
                lemma_count_with_vx_bounds(s, next, (n - 1) as nat);
            },
        }
    }
}

/// The records decoded one after another from `pos` to the end of the
/// input. The input is exhausted where the cursor stands at its end or
/// beyond; a record that begins before the end has to decode.
pub open spec fn spec_until_eof<T: Element<A>, A>(s: Seq<u8>, pos: int, args: A) -> Result<
    Seq<T::V>,
    DecodeError,
>
    decreases s.len() - pos,
    via spec_until_eof_decreases::<T, A>
{
    if pos >= s.len() {
        Ok(Seq::empty())
    } else {
        match T::spec_decode(s, pos, args) {
            Err(e) => Err(e),
            Ok((first, next)) => match spec_until_eof::<T, A>(s, next, args) {
                Err(e) => Err(e),
                Ok(rest) => Ok(seq![first] + rest),
            },
        }
    }
}

#[via_fn]
proof fn spec_until_eof_decreases<T: Element<A>, A>(s: Seq<u8>, pos: int, args: A) {
    T::lemma_advances(s, pos, args);
}

/// Decodes records until the input is exhausted.
pub fn until_eof<T: Element<A>, A: Copy>(data: &[u8], pos: usize, args: A) -> (r: Result<
    Vec<T>,
    DecodeError,
>)
    ensures
        match r {
            Ok(items) => spec_until_eof::<T, A>(data@, pos as int, args) == Ok::<
                Seq<T::V>,
                DecodeError,
            >(views(items@)),
            Err(e) => spec_until_eof::<T, A>(data@, pos as int, args) == Err::<
                Seq<T::V>,
                DecodeError,
            >(e),
        },
{
    let mut items: Vec<T> = Vec::new();
    let mut cur: usize = pos;
    while cur < data.len()
        invariant
            match spec_until_eof::<T, A>(data@, cur as int, args) {
                Ok(rest) => spec_until_eof::<T, A>(data@, pos as int, args) == Ok::<
                    Seq<T::V>,
                    DecodeError,
                >(views(items@) + rest),
                Err(e) => spec_until_eof::<T, A>(data@, pos as int, args) == Err::<
                    Seq<T::V>,
                    DecodeError,
                >(e),
            },
        decreases data.len() - cur,
    {
        proof {
            T::lemma_advances(data@, cur as int, args);
        }
        let ghost before = views(items@);
        let (item, next) = T::decode(data, cur, args)?;
        items.push(item);
        proof {
            assert(views(items@) =~= before + seq![item@]);
            match spec_until_eof::<T, A>(data@, next as int, args) {
                Ok(rest) => {
                    assert(before + (seq![item@] + rest) =~= views(items@) + rest);
                },
                Err(_) => {},
            }
        }
        cur = next;
    }
    proof {
        assert(views(items@) + Seq::<T::V>::empty() =~= views(items@));
    }
    Ok(items)
}

/// The placeholder for a record kind whose layout is not known: it
/// holds nothing, and decoding it fails wherever it is tried.
#[derive(Debug, Clone, Copy, PartialEq, Eq)]
pub struct BinReadTodo();

impl View for BinReadTodo {
    type V = BinReadTodo;

    open spec fn view(&self) -> BinReadTodo {
        *self
    }
}

impl Decode<()> for BinReadTodo {
    open spec fn spec_decode(s: Seq<u8>, pos: int, _args: ()) -> Parsed<BinReadTodo> {
        Err(DecodeError::StructuralAssertion { pos: pos as u64 })
    }

    fn decode(data: &[u8], pos: usize, _args: ()) -> (r: Decoded<BinReadTodo>) {
        Err(DecodeError::StructuralAssertion { pos: pos as u64 })
    }
}

impl Element<()> for BinReadTodo {
    proof fn lemma_advances(s: Seq<u8>, pos: int, _args: ()) {
    }
}

/// The number of elements of `width` bytes each that fill a budget of
/// `limit` bytes: the least number whose bytes reach the budget.
pub open spec fn elements_to_fill(limit: int, width: int) -> int {
    (limit + width - 1) / width
}

/// With elements of four bytes each, a size-bounded sequence holds the
/// least number of elements that take up `limit` bytes or more, and ends
/// after the last of them: beyond the budget where four does not divide it.
pub proof fn lemma_until_size_limit_of_floats(s: Seq<u8>, pos: int, limit: int)
    requires
        0 <= limit,
        available(s, pos, 4 * elements_to_fill(limit, 4)),
    ensures
        spec_until_size_limit::<Float, ()>(s, pos, limit, ()) matches Ok((items, end))
            && items.len() == elements_to_fill(limit, 4) && end == pos + 4 * elements_to_fill(
            limit,
            4,
        ),
{
    lemma_floats_from(s, pos, limit, 0);
}

proof fn lemma_floats_from(s: Seq<u8>, start: int, limit: int, done: int)
    requires
        0 <= limit,
        0 <= done <= elements_to_fill(limit, 4),
        available(s, start, 4 * elements_to_fill(limit, 4)),
    ensures
        spec_until_from::<Float, ()>(s, start, limit, start + 4 * done, ()) matches Ok((items, end))
            && items.len() == elements_to_fill(limit, 4) - done && end == start + 4
            * elements_to_fill(limit, 4),
    decreases elements_to_fill(limit, 4) - done,
{
    if 4 * done < limit {
        lemma_floats_from(s, start, limit, done + 1);
    }
}

} // verus!

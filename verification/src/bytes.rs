//! The small decoders that the rest is built from: a byte, a fixed tag, a run
//! of bytes, a little-endian word, a name, and a counted vector.
use crate::error::ParseError;
use crate::leb::{spec_u32, wasm_u32};
use vstd::prelude::*;
use vstd::slice::slice_subrange;
use vstd::string::StringSliceAdditionalSpecFns;
use vstd::utf8::{decode_utf8, encode_utf8_decode_utf8, valid_utf8};

verus! {

/// The byte at `pos`.
pub open spec fn spec_byte(s: Seq<u8>, pos: int) -> Result<(u8, int), ParseError> {
    if 0 <= pos < s.len() {
        Ok((s[pos], pos + 1))
    } else {
        Err(ParseError::UnexpectedEnd)
    }
}

/// The position behind `expected`, if the bytes from `pos` on are `expected`.
pub open spec fn spec_tag(s: Seq<u8>, pos: int, expected: Seq<u8>) -> Option<int> {
    if 0 <= pos && pos + expected.len() <= s.len() && s.subrange(pos, pos + expected.len())
        == expected {
        Some(pos + expected.len())
    } else {
        None
    }
}

/// The `n` bytes from `pos` on.
pub open spec fn spec_take(s: Seq<u8>, pos: int, n: nat) -> Result<(Seq<u8>, int), ParseError> {
    if 0 <= pos && pos + n <= s.len() {
        Ok((s.subrange(pos, pos + n), pos + n))
    } else {
        Err(ParseError::UnexpectedEnd)
    }
}

/// The four bytes from `pos` on as a little-endian number.
pub open spec fn le_u32(s: Seq<u8>, pos: int) -> u32 {
    (s[pos] + 0x100 * s[pos + 1] + 0x1_0000 * s[pos + 2] + 0x100_0000 * s[pos + 3]) as u32
}

/// The eight bytes from `pos` on as a little-endian number.
pub open spec fn le_u64(s: Seq<u8>, pos: int) -> u64 {
    (le_u32(s, pos) + 0x1_0000_0000 * le_u32(s, pos + 4)) as u64
}

/// A 32-bit pattern stored in four bytes, low byte first.
pub open spec fn spec_bits32(s: Seq<u8>, pos: int) -> Result<(u32, int), ParseError> {
    if 0 <= pos && pos + 4 <= s.len() {
        Ok((le_u32(s, pos), pos + 4))
    } else {
        Err(ParseError::UnexpectedEnd)
    }
}

/// A 64-bit pattern stored in eight bytes, low byte first.
pub open spec fn spec_bits64(s: Seq<u8>, pos: int) -> Result<(u64, int), ParseError> {
    if 0 <= pos && pos + 8 <= s.len() {
        Ok((le_u64(s, pos), pos + 8))
    } else {
        Err(ParseError::UnexpectedEnd)
    }
}

/// An index or a size: an unsigned 32-bit integer, widened.
pub open spec fn spec_index(s: Seq<u8>, pos: int) -> Result<(usize, int), ParseError> {
    match spec_u32(s, pos) {
        Ok((v, next)) => Ok((v as usize, next)),
        Err(e) => Err(e),
    }
}

/// A byte vector: its length, then that many bytes.
pub open spec fn spec_byte_vec(s: Seq<u8>, pos: int) -> Result<(Seq<u8>, int), ParseError> {
    match spec_u32(s, pos) {
        Ok((n, next)) => spec_take(s, next, n as nat),
        Err(e) => Err(e),
    }
}

/// A name: a byte vector that holds valid UTF-8, decoded.
pub open spec fn spec_name(s: Seq<u8>, pos: int) -> Result<(Seq<char>, int), ParseError> {
    match spec_byte_vec(s, pos) {
        Ok((raw, next)) => if valid_utf8(raw) {
            Ok((decode_utf8(raw), next))
        } else {
            Err(ParseError::InvalidUtf8)
        },
        Err(e) => Err(e),
    }
}

/// `n` items one behind the other, each decoded by `item`, appended to `acc`.
pub open spec fn spec_many<T>(
    item: spec_fn(Seq<u8>, int) -> Result<(T, int), ParseError>,
    s: Seq<u8>,
    pos: int,
    n: nat,
    acc: Seq<T>,
) -> Result<(Seq<T>, int), ParseError>
    decreases n,
{
    if n == 0 {
        Ok((acc, pos))
    } else {
        match item(s, pos) {
            Ok((x, next)) => spec_many(item, s, next, (n - 1) as nat, acc.push(x)),
            Err(e) => Err(e),
        }
    }
}

/// A vector: a count, then that many items, each decoded by `item`.
pub open spec fn spec_vec<T>(
    item: spec_fn(Seq<u8>, int) -> Result<(T, int), ParseError>,
    s: Seq<u8>,
    pos: int,
) -> Result<(Seq<T>, int), ParseError> {
    match spec_u32(s, pos) {
        Ok((n, next)) => spec_many(item, s, next, n as nat, Seq::empty()),
        Err(e) => Err(e),
    }
}

/// The views of the items of `v`, in order.
pub open spec fn views<T: View>(v: Seq<T>) -> Seq<T::V> {
    Seq::new(v.len(), |k: int| v[k]@)
}

/// The views of a sequence with one more item are the views with one more view.
pub proof fn lemma_views_push<T: View>(v: Seq<T>, x: T)
    ensures
        views(v.push(x)) == views(v).push(x@),
{
    assert(views(v.push(x)) =~= views(v).push(x@));
}

/// What a decoder that returns a value and the next position has to return,
/// given what the format says of the same bytes.
pub open spec fn agrees<T>(
    r: Result<(T, usize), ParseError>,
    expected: Result<(T, int), ParseError>,
) -> bool {
    match r {
        Ok((v, next)) => expected == Ok::<(T, int), ParseError>((v, next as int)),
        Err(e) => expected == Err::<(T, int), ParseError>(e),
    }
}

/// As [`agrees`], for a value that is compared by its view.
pub open spec fn agrees_view<T: View>(
    r: Result<(T, usize), ParseError>,
    expected: Result<(T::V, int), ParseError>,
) -> bool {
    match r {
        Ok((v, next)) => expected == Ok::<(T::V, int), ParseError>((v@, next as int)),
        Err(e) => expected == Err::<(T::V, int), ParseError>(e),
    }
}

/// Whether a decoder that started at `pos` stayed inside `len` bytes and moved on.
pub open spec fn advances<T>(r: Result<(T, usize), ParseError>, pos: usize, len: nat) -> bool {
    r matches Ok((_, next)) ==> pos < next <= len
}

/// What a decoder of several items has to return, given what the format says
/// of the same bytes.
pub open spec fn agrees_views<T: View>(
    r: Result<(Vec<T>, usize), ParseError>,
    expected: Result<(Seq<T::V>, int), ParseError>,
) -> bool {
    match r {
        Ok((v, next)) => expected == Ok::<(Seq<T::V>, int), ParseError>((views(v@), next as int)),
        Err(e) => expected == Err::<(Seq<T::V>, int), ParseError>(e),
    }
}

/// Reads the byte at `pos`.
pub fn byte(input: &[u8], pos: usize) -> (r: Result<(u8, usize), ParseError>)
    ensures
        agrees(r, spec_byte(input@, pos as int)),
        advances(r, pos, input@.len()),
{
    if pos < input.len() {
        Ok((input[pos], pos + 1))
    } else {
        Err(ParseError::UnexpectedEnd)
    }
}

/// Matches the bytes from `pos` on against `expected` and gives the position
/// behind them.
pub fn tag(input: &[u8], pos: usize, expected: &[u8]) -> (r: Option<usize>)
    ensures
        match r {
            Some(next) => spec_tag(input@, pos as int, expected@) == Some(next as int),
            None => spec_tag(input@, pos as int, expected@) is None,
        },
{
    if pos > input.len() || input.len() - pos < expected.len() {
        return None;
    }
    let mut i: usize = 0;
    while i < expected.len()
        invariant
            i <= expected.len(),
            pos + expected.len() <= input.len(),
            forall|k: int| 0 <= k < i ==> input@[pos + k] == expected@[k],
        decreases expected.len() - i,
    {
        if input[pos + i] != expected[i] {
            assert(input@.subrange(pos as int, pos + expected@.len())[i as int] != expected@[i as int]);
            return None;
        }
        i = i + 1;
    }
    assert(input@.subrange(pos as int, pos + expected@.len()) =~= expected@);
    Some(pos + expected.len())
}

/// Borrows the `n` bytes from `pos` on.
pub fn take<'p>(input: &'p [u8], pos: usize, n: usize) -> (r: Result<(&'p [u8], usize), ParseError>)
    ensures
        agrees_view(r, spec_take(input@, pos as int, n as nat)),
        r matches Ok((_, next)) ==> pos <= next <= input@.len(),
{
    if pos > input.len() || input.len() - pos < n {
        Err(ParseError::UnexpectedEnd)
    } else {
        Ok((slice_subrange(input, pos, pos + n), pos + n))
    }
}

/// Reads four bytes as a little-endian number.
pub fn bits32(input: &[u8], pos: usize) -> (r: Result<(u32, usize), ParseError>)
    ensures
        agrees(r, spec_bits32(input@, pos as int)),
        advances(r, pos, input@.len()),
{
    if pos > input.len() || input.len() - pos < 4 {
        Err(ParseError::UnexpectedEnd)
    } else {
        let b0: u32 = input[pos] as u32;
        let b1: u32 = input[pos + 1] as u32;
        let b2: u32 = input[pos + 2] as u32;
        let b3: u32 = input[pos + 3] as u32;
        Ok((b0 + 0x100 * b1 + 0x1_0000 * b2 + 0x100_0000 * b3, pos + 4))
    }
}

/// Reads eight bytes as a little-endian number.
pub fn bits64(input: &[u8], pos: usize) -> (r: Result<(u64, usize), ParseError>)
    ensures
        agrees(r, spec_bits64(input@, pos as int)),
        advances(r, pos, input@.len()),
{
    if pos > input.len() || input.len() - pos < 8 {
        Err(ParseError::UnexpectedEnd)
    } else {
        match bits32(input, pos) {
            Ok((low, mid)) => match bits32(input, mid) {
                Ok((high, next)) => Ok((low as u64 + 0x1_0000_0000 * (high as u64), next)),
                Err(e) => Err(e),
            },
            Err(e) => Err(e),
        }
    }
}

/// Decodes an index or a size.
pub fn index(input: &[u8], pos: usize) -> (r: Result<(usize, usize), ParseError>)
    ensures
        agrees(r, spec_index(input@, pos as int)),
        advances(r, pos, input@.len()),
{
    match wasm_u32(input, pos) {
        Ok((v, next)) => Ok((v as usize, next)),
        Err(e) => Err(e),
    }
}

/// Decodes a byte vector and borrows its contents.
pub fn byte_vec<'p>(input: &'p [u8], pos: usize) -> (r: Result<(&'p [u8], usize), ParseError>)
    ensures
        agrees_view(r, spec_byte_vec(input@, pos as int)),
        advances(r, pos, input@.len()),
{
    match wasm_u32(input, pos) {
        Ok((n, next)) => take(input, next, n as usize),
        Err(e) => Err(e),
    }
}

/// Calls `core::str::from_utf8`, which accepts exactly the slices that hold
/// valid UTF-8 and gives such a slice back as a string of the same bytes.
#[verifier::external_body]
fn str_from_utf8<'p>(bytes: &'p [u8]) -> (r: Option<&'p str>)
    ensures
        r is Some <==> valid_utf8(bytes@),
        r matches Some(text) ==> text.spec_bytes() == bytes@,
{
    match core::str::from_utf8(bytes) {
        Ok(text) => Some(text),
        Err(_) => None,
    }
}

/// Decodes a name and borrows it.
pub fn name<'p>(input: &'p [u8], pos: usize) -> (r: Result<(&'p str, usize), ParseError>)
    ensures
        agrees_view(r, spec_name(input@, pos as int)),
        advances(r, pos, input@.len()),
{
    match byte_vec(input, pos) {
        Ok((raw, next)) => match str_from_utf8(raw) {
            Some(text) => {
                proof {
                    encode_utf8_decode_utf8(text@);
                }
                Ok((text, next))
            },
            None => Err(ParseError::InvalidUtf8),
        },
        Err(e) => Err(e),
    }
}

/// A value that has a place in the format: it can be decoded from the bytes
/// at a position.
pub trait Decode<'p>: Sized + View {
    /// What the bytes from `pos` on hold, and where the value ends.
    spec fn spec_decode(s: Seq<u8>, pos: int) -> Result<(Self::V, int), ParseError>;

    /// Decodes the value at `pos`.
    fn decode(input: &'p [u8], pos: usize) -> (r: Result<(Self, usize), ParseError>)
        ensures
            agrees_view(r, Self::spec_decode(input@, pos as int)),
            advances(r, pos, input@.len()),
    ;
}

impl<'p> Decode<'p> for u32 {
    open spec fn spec_decode(s: Seq<u8>, pos: int) -> Result<(u32, int), ParseError> {
        spec_u32(s, pos)
    }

    fn decode(input: &'p [u8], pos: usize) -> (r: Result<(u32, usize), ParseError>) {
        wasm_u32(input, pos)
    }
}

impl<'p> Decode<'p> for usize {
    open spec fn spec_decode(s: Seq<u8>, pos: int) -> Result<(usize, int), ParseError> {
        spec_index(s, pos)
    }

    fn decode(input: &'p [u8], pos: usize) -> (r: Result<(usize, usize), ParseError>) {
        index(input, pos)
    }
}

/// Decodes `n` items one behind the other, and fails where the first of them fails.
pub fn many_n<'p, T: Decode<'p>>(input: &'p [u8], pos: usize, n: u32) -> (r: Result<
    (Vec<T>, usize),
    ParseError,
>)
    ensures
        agrees_views(
            r,
            spec_many(
                |s: Seq<u8>, p: int| T::spec_decode(s, p),
                input@,
                pos as int,
                n as nat,
                Seq::empty(),
            ),
        ),
        r matches Ok((items, next)) ==> items@.len() == n && pos <= next && (pos <= input@.len()
            ==> next <= input@.len()),
{
    let mut out: Vec<T> = Vec::new();
    let mut at: usize = pos;
    let mut i: u32 = 0;
    assert(views(out@) =~= Seq::empty());
    while i < n
        invariant
            i <= n,
            out@.len() == i,
            pos <= at,
            pos <= input@.len() ==> at <= input@.len(),
            spec_many(
                |s: Seq<u8>, p: int| T::spec_decode(s, p),
                input@,
                pos as int,
                n as nat,
                Seq::empty(),
            ) == spec_many(
                |s: Seq<u8>, p: int| T::spec_decode(s, p),
                input@,
                at as int,
                (n - i) as nat,
                views(out@),
            ),
        decreases n - i,
    {
        let (x, next) = T::decode(input, at)?;
        proof {
            lemma_views_push(out@, x);
        }
        out.push(x);
        at = next;
        i = i + 1;
    }
    Ok((out, at))
}

/// Decodes a vector: a count, then that many items.
pub fn vector<'p, T: Decode<'p>>(input: &'p [u8], pos: usize) -> (r: Result<
    (Vec<T>, usize),
    ParseError,
>)
    ensures
        agrees_views(r, spec_vec(|s: Seq<u8>, p: int| T::spec_decode(s, p), input@, pos as int)),
        advances(r, pos, input@.len()),
{
    let (n, start) = wasm_u32(input, pos)?;
    many_n(input, start, n)
}

} // verus!

//! Variable-length integers (LEB128) as they occur in a WebAssembly module.
//!
//! The groups are decoded by the `webassembly` crate; this module states what
//! it returns and adds the bounds that the format asks for.
use crate::bytes::{advances, agrees};
use crate::error::ParseError;
use vstd::prelude::*;

verus! {

/// The length of the LEB128 group that starts at `pos`, if one of the first
/// `max` bytes from there ends it (has its high bit clear).
pub open spec fn leb_len(s: Seq<u8>, pos: int, max: nat) -> Option<nat>
    decreases max,
{
    if max == 0 || pos < 0 || pos >= s.len() {
        None
    } else if s[pos] < 0x80 {
        Some(1)
    } else {
        match leb_len(s, pos + 1, (max - 1) as nat) {
            Some(n) => Some(n + 1),
            None => None,
        }
    }
}

/// The payload of the `n` bytes from `pos`: seven bits a byte, low group first.
pub open spec fn leb_payload(s: Seq<u8>, pos: int, n: nat) -> nat
    decreases n,
{
    if n == 0 {
        0
    } else {
        (s[pos] % 128) as nat + 128 * leb_payload(s, pos + 1, (n - 1) as nat)
    }
}

/// 128 to the power `n`.
pub open spec fn pow128(n: nat) -> nat
    decreases n,
{
    if n == 0 {
        1
    } else {
        128 * pow128((n - 1) as nat)
    }
}

/// The payload of the `n` bytes from `pos` read as a two's complement number
/// of `7 * n` bits: bit 6 of the last byte is the sign.
pub open spec fn leb_signed(s: Seq<u8>, pos: int, n: nat) -> int {
    if n > 0 && s[pos + n - 1] % 128 >= 64 {
        leb_payload(s, pos, n) - pow128(n)
    } else {
        leb_payload(s, pos, n) as int
    }
}

/// The 32-bit signed integer congruent to `x` modulo 2^32.
pub open spec fn wrap_i32(x: int) -> i32 {
    let m = x % 0x1_0000_0000;
    if m >= 0x8000_0000 {
        (m - 0x1_0000_0000) as i32
    } else {
        m as i32
    }
}

/// The 64-bit signed integer congruent to `x` modulo 2^64.
pub open spec fn wrap_i64(x: int) -> i64 {
    let m = x % 0x1_0000_0000_0000_0000;
    if m >= 0x8000_0000_0000_0000 {
        (m - 0x1_0000_0000_0000_0000) as i64
    } else {
        m as i64
    }
}

/// The error of a group that does not end within `max` bytes: the input is
/// exhausted, or the group is too long.
pub open spec fn unfinished(s: Seq<u8>, pos: int, max: nat) -> ParseError {
    if s.len() - pos >= max {
        ParseError::LebOverflow
    } else {
        ParseError::UnexpectedEnd
    }
}

/// An unsigned 32-bit integer at `pos`: a group of at most five bytes whose
/// payload fits in 32 bits.
pub open spec fn spec_u32(s: Seq<u8>, pos: int) -> Result<(u32, int), ParseError> {
    match leb_len(s, pos, 5) {
        None => Err(unfinished(s, pos, 5)),
        Some(n) => if n == 5 && s[pos + 4] >= 0x10 {
            Err(ParseError::LebOverflow)
        } else {
            Ok((leb_payload(s, pos, n) as u32, pos + n))
        },
    }
}

/// A signed 32-bit integer at `pos`: a group of at most five bytes, sign
/// extended from its last byte and reduced to 32 bits.
pub open spec fn spec_i32(s: Seq<u8>, pos: int) -> Result<(i32, int), ParseError> {
    match leb_len(s, pos, 5) {
        None => Err(unfinished(s, pos, 5)),
        Some(n) => Ok((wrap_i32(leb_signed(s, pos, n)), pos + n)),
    }
}

/// A signed 64-bit integer at `pos`: a group of at most ten bytes, sign
/// extended from its last byte and reduced to 64 bits.
pub open spec fn spec_i64(s: Seq<u8>, pos: int) -> Result<(i64, int), ParseError> {
    match leb_len(s, pos, 10) {
        None => Err(unfinished(s, pos, 10)),
        Some(n) => Ok((wrap_i64(leb_signed(s, pos, n)), pos + n)),
    }
}

/// Calls `webassembly::leb128::decode_u32`, which reads an unsigned LEB128
/// group from `pos` on. It succeeds exactly when the group ends within five
/// bytes and within `data`; it then gives the payload reduced to 32 bits and
/// the position behind the group.
#[verifier::external_body]
fn leb128_decode_u32(data: &[u8], pos: usize) -> (r: Option<(u32, usize)>)
    ensures
        match r {
            Some((v, next)) => pos < next && leb_len(data@, pos as int, 5) == Some(
                (next - pos) as nat,
            ) && v == leb_payload(data@, pos as int, (next - pos) as nat) % 0x1_0000_0000,
            None => leb_len(data@, pos as int, 5) is None,
        },
{
    let mut at = pos;
    match webassembly::leb128::decode_u32(data, &mut at) {
        Ok(v) => Some((v, at)),
        Err(_) => None,
    }
}

/// Calls `webassembly::leb128::decode_i32`, which reads a signed LEB128 group
/// from `pos` on. It succeeds exactly when the group ends within five bytes
/// and within `data`; it then gives the sign-extended payload reduced to 32
/// bits and the position behind the group.
#[verifier::external_body]
fn leb128_decode_i32(data: &[u8], pos: usize) -> (r: Option<(i32, usize)>)
    ensures
        match r {
            Some((v, next)) => pos < next && leb_len(data@, pos as int, 5) == Some(
                (next - pos) as nat,
            ) && v == wrap_i32(leb_signed(data@, pos as int, (next - pos) as nat)),
            None => leb_len(data@, pos as int, 5) is None,
        },
{
    let mut at = pos;
    match webassembly::leb128::decode_i32(data, &mut at) {
        Ok(v) => Some((v, at)),
        Err(_) => None,
    }
}

/// Calls `webassembly::leb128::decode_i64`, which reads a signed LEB128 group
/// from `pos` on. It succeeds exactly when the group ends within ten bytes and
/// within `data`; it then gives the sign-extended payload reduced to 64 bits
/// and the position behind the group.
#[verifier::external_body]
fn leb128_decode_i64(data: &[u8], pos: usize) -> (r: Option<(i64, usize)>)
    ensures
        match r {
            Some((v, next)) => pos < next && leb_len(data@, pos as int, 10) == Some(
                (next - pos) as nat,
            ) && v == wrap_i64(leb_signed(data@, pos as int, (next - pos) as nat)),
            None => leb_len(data@, pos as int, 10) is None,
        },
{
    let mut at = pos;
    match webassembly::leb128::decode_i64(data, &mut at) {
        Ok(v) => Some((v, at)),
        Err(_) => None,
    }
}

/// A group that ends within `max` bytes lies inside the input and is at most
/// `max` bytes long; its last byte has the high bit clear, the others have it set.
pub proof fn lemma_leb_len(s: Seq<u8>, pos: int, max: nat)
    ensures
        match leb_len(s, pos, max) {
            Some(n) => 1 <= n <= max && 0 <= pos && pos + n <= s.len() && s[pos + n - 1] < 0x80
                && forall|k: int| pos <= k < pos + n - 1 ==> s[k] >= 0x80,
            None => true,
        },
    decreases max,
{
    if max == 0 || pos < 0 || pos >= s.len() {
    } else if s[pos] < 0x80 {
    } else {
        lemma_leb_len(s, pos + 1, (max - 1) as nat);
    }
}

/// A payload of `n` bytes is below 128 to the power `n`.
pub proof fn lemma_payload_bound(s: Seq<u8>, pos: int, n: nat)
    ensures
        leb_payload(s, pos, n) < pow128(n),
    decreases n,
{
    if n > 0 {
        lemma_payload_bound(s, pos + 1, (n - 1) as nat);
    }
}

/// A payload of five bytes whose last byte is below 16 fits in 32 bits, and so
/// does every shorter one.
proof fn lemma_payload_fits_u32(s: Seq<u8>, pos: int, n: nat)
    requires
        1 <= n <= 5,
        n == 5 ==> s[pos + 4] < 0x10,
    ensures
        leb_payload(s, pos, n) < 0x1_0000_0000,
{
    reveal_with_fuel(leb_payload, 6);
    reveal_with_fuel(pow128, 6);
    if n == 5 {
        lemma_payload_bound(s, pos, 4);
        assert(leb_payload(s, pos + 4, 1) == (s[pos + 4] % 128) as nat);
        lemma_payload_split(s, pos, 4, 1);
    } else {
        lemma_payload_bound(s, pos, n);
    }
}

/// The payload of `a + b` bytes is that of the first `a` plus 128^a times that
/// of the `b` behind them.
pub proof fn lemma_payload_split(s: Seq<u8>, pos: int, a: nat, b: nat)
    ensures
        leb_payload(s, pos, a + b) == leb_payload(s, pos, a) + pow128(a) * leb_payload(
            s,
            pos + a,
            b,
        ),
    decreases a,
{
    if a == 0 {
        assert(pow128(0) == 1);
        assert(1 * leb_payload(s, pos, b) == leb_payload(s, pos, b));
    } else {
        lemma_payload_split(s, pos + 1, (a - 1) as nat, b);
        let rest = leb_payload(s, pos + a, b);
        let p = pow128((a - 1) as nat);
        assert(128 * (p * rest) == (128 * p) * rest) by (nonlinear_arith);
        assert(128 * (leb_payload(s, pos + 1, (a - 1) as nat) + p * rest) == 128 * leb_payload(
            s,
            pos + 1,
            (a - 1) as nat,
        ) + 128 * (p * rest)) by (nonlinear_arith);
    }
}

/// An integer that is decoded at `pos` ends behind `pos` and inside the input.
pub proof fn lemma_integer_advances(s: Seq<u8>, pos: int)
    ensures
        spec_u32(s, pos) matches Ok((_, next)) ==> 0 <= pos < next <= s.len(),
        spec_i32(s, pos) matches Ok((_, next)) ==> 0 <= pos < next <= s.len(),
        spec_i64(s, pos) matches Ok((_, next)) ==> 0 <= pos < next <= s.len(),
{
    lemma_leb_len(s, pos, 5);
    lemma_leb_len(s, pos, 10);
}

/// Decodes an unsigned 32-bit integer at `pos`.
pub fn wasm_u32(input: &[u8], pos: usize) -> (r: Result<(u32, usize), ParseError>)
    ensures
        agrees(r, spec_u32(input@, pos as int)),
        advances(r, pos, input@.len()),
{
    match leb128_decode_u32(input, pos) {
        Some((v, next)) => {
            proof {
                lemma_leb_len(input@, pos as int, 5);
            }
            if next - pos == 5 && input[pos + 4] >= 0x10 {
                Err(ParseError::LebOverflow)
            } else {
                proof {
                    lemma_payload_fits_u32(input@, pos as int, (next - pos) as nat);
                }
                Ok((v, next))
            }
        },
        None => Err(unfinished_error(input, pos, 5)),
    }
}

/// Decodes a signed 32-bit integer at `pos`.
pub fn wasm_i32(input: &[u8], pos: usize) -> (r: Result<(i32, usize), ParseError>)
    ensures
        agrees(r, spec_i32(input@, pos as int)),
        advances(r, pos, input@.len()),
{
    match leb128_decode_i32(input, pos) {
        Some((v, next)) => {
            proof {
                lemma_leb_len(input@, pos as int, 5);
            }
            Ok((v, next))
        },
        None => Err(unfinished_error(input, pos, 5)),
    }
}

/// Decodes a signed 64-bit integer at `pos`.
pub fn wasm_i64(input: &[u8], pos: usize) -> (r: Result<(i64, usize), ParseError>)
    ensures
        agrees(r, spec_i64(input@, pos as int)),
        advances(r, pos, input@.len()),
{
    match leb128_decode_i64(input, pos) {
        Some((v, next)) => {
            proof {
                lemma_leb_len(input@, pos as int, 10);
            }
            Ok((v, next))
        },
        None => Err(unfinished_error(input, pos, 10)),
    }
}

/// Tells an exhausted input from a group that is too long.
fn unfinished_error(input: &[u8], pos: usize, max: usize) -> (e: ParseError)
    ensures
        e == unfinished(input@, pos as int, max as nat),
{
    if pos <= input.len() && input.len() - pos >= max {
        ParseError::LebOverflow
    } else {
        ParseError::UnexpectedEnd
    }
}

/// A group that has not ended after `max` bytes is no group of at most `max` bytes.
pub proof fn lemma_leb_len_none(s: Seq<u8>, pos: int, max: nat)
    requires
        0 <= pos,
        forall|k: int| pos <= k < pos + max && k < s.len() ==> s[k] >= 0x80,
    ensures
        leb_len(s, pos, max) is None,
    decreases max,
{
    if max == 0 || pos >= s.len() {
    } else {
        lemma_leb_len_none(s, pos + 1, (max - 1) as nat);
    }
}

/// An unsigned or signed 32-bit integer of more than five bytes, and a signed
/// 64-bit integer of more than ten, is refused.
pub proof fn lemma_leb_bounds(s: Seq<u8>, pos: int)
    requires
        0 <= pos,
    ensures
        (forall|k: int| pos <= k < pos + 5 ==> k < s.len() && s[k] >= 0x80) ==> spec_u32(s, pos)
            == Err::<(u32, int), ParseError>(ParseError::LebOverflow) && spec_i32(s, pos) == Err::<
            (i32, int),
            ParseError,
        >(ParseError::LebOverflow),
        (forall|k: int| pos <= k < pos + 10 ==> k < s.len() && s[k] >= 0x80) ==> spec_i64(s, pos)
            == Err::<(i64, int), ParseError>(ParseError::LebOverflow),
{
    if forall|k: int| pos <= k < pos + 5 ==> k < s.len() && s[k] >= 0x80 {
        lemma_leb_len_none(s, pos, 5);
        assert(s[pos + 4] >= 0x80);
    }
    if forall|k: int| pos <= k < pos + 10 ==> k < s.len() && s[k] >= 0x80 {
        lemma_leb_len_none(s, pos, 10);
        assert(s[pos + 9] >= 0x80);
    }
}

} // verus!

//! Reading bytes off the wire: little-endian integers, nibbles, single bits,
//! and the one error type that every parser of this crate returns.

use vstd::prelude::*;

verus! {

/// Why a parser gave up on its input.
#[derive(Clone, Copy, Debug, PartialEq, Eq, Structural)]
pub enum ParseErrorKind {
    /// The input ends before the field that starts at `offset` is complete.
    Truncated,
    /// A fixed marker (application code, OUI, service id) holds another value.
    WrongSentinel,
    /// A length field contradicts the layout that it describes.
    LengthMismatch,
}

/// A parser's failure: what went wrong, and at which byte of the parser's
/// input the offending field starts.
#[derive(Clone, Copy, Debug, PartialEq, Eq, Structural)]
pub struct ParseError {
    pub kind: ParseErrorKind,
    pub offset: usize,
}

/// The error for a field at `at` that the input is too short to hold.
pub open spec fn truncated(at: int) -> ParseError {
    ParseError { kind: ParseErrorKind::Truncated, offset: at as usize }
}

/// The error for a marker at `at` that holds the wrong value.
pub open spec fn wrong_sentinel(at: int) -> ParseError {
    ParseError { kind: ParseErrorKind::WrongSentinel, offset: at as usize }
}

/// The error for a length field at `at` that cannot be honoured.
pub open spec fn length_mismatch(at: int) -> ParseError {
    ParseError { kind: ParseErrorKind::LengthMismatch, offset: at as usize }
}

/// What a parser returns, over sequences: the bytes left over and the value,
/// or the error.
pub type Parsed<T> = Result<(Seq<u8>, T), ParseError>;

/// Whether the result `r` of a parser is the outcome `m`, for a value that is
/// its own model.
pub open spec fn yields<T>(r: Result<(&[u8], T), ParseError>, m: Parsed<T>) -> bool {
    match (r, m) {
        (Ok((rest, value)), Ok((m_rest, m_value))) => rest@ == m_rest && value == m_value,
        (Err(e), Err(m_e)) => e == m_e,
        _ => false,
    }
}

/// Whether the result `r` of a parser is the outcome `m`, for a value that is
/// compared by its view.
pub open spec fn yields_view<T: View>(r: Result<(&[u8], T), ParseError>, m: Parsed<T::V>) -> bool {
    match (r, m) {
        (Ok((rest, value)), Ok((m_rest, m_value))) => rest@ == m_rest && value@ == m_value,
        (Err(e), Err(m_e)) => e == m_e,
        _ => false,
    }
}

/// The unsigned 16-bit value stored little-endian at `s[at..at + 2]`.
pub open spec fn le_u16(s: Seq<u8>, at: int) -> u16
    recommends
        0 <= at,
        at + 2 <= s.len(),
{
    (s[at] as int + 256 * (s[at + 1] as int)) as u16
}

/// The unsigned 24-bit value stored little-endian at `s[at..at + 3]`.
pub open spec fn le_u24(s: Seq<u8>, at: int) -> u32
    recommends
        0 <= at,
        at + 3 <= s.len(),
{
    (s[at] as int + 256 * (s[at + 1] as int) + 65536 * (s[at + 2] as int)) as u32
}

/// The unsigned 32-bit value stored little-endian at `s[at..at + 4]`.
pub open spec fn le_u32(s: Seq<u8>, at: int) -> u32
    recommends
        0 <= at,
        at + 4 <= s.len(),
{
    (s[at] as int + 256 * (s[at + 1] as int) + 65536 * (s[at + 2] as int) + 16777216 * (s[at
        + 3] as int)) as u32
}

/// The two's-complement 16-bit value stored little-endian at `s[at..at + 2]`.
pub open spec fn le_i16(s: Seq<u8>, at: int) -> i16
    recommends
        0 <= at,
        at + 2 <= s.len(),
{
    let u = le_u16(s, at) as int;
    if u < 32768 {
        u as i16
    } else {
        (u - 65536) as i16
    }
}

/// The two's-complement 32-bit value stored little-endian at `s[at..at + 4]`.
pub open spec fn le_i32(s: Seq<u8>, at: int) -> i32
    recommends
        0 <= at,
        at + 4 <= s.len(),
{
    let u = le_u32(s, at) as int;
    if u < 2147483648 {
        u as i32
    } else {
        (u - 4294967296) as i32
    }
}

/// The upper four bits of a byte, as a number from 0 to 15.
pub open spec fn high_nibble(b: u8) -> u8 {
    b / 16
}

/// The lower four bits of a byte, as a number from 0 to 15.
pub open spec fn low_nibble(b: u8) -> u8 {
    b % 16
}

/// One bit of a byte, as 0 or 1. `weight` is the bit's place value: 1 for
/// bit 0, 2 for bit 1, 4 for bit 2.
pub open spec fn bit_at(b: u8, weight: u8) -> u8
    recommends
        weight > 0,
{
    ((b / weight) % 2) as u8
}

/// Splits a byte into its upper and lower four bits.
pub fn split_nibbles(b: u8) -> (r: (u8, u8))
    ensures
        r.0 == high_nibble(b),
        r.1 == low_nibble(b),
        r.0 < 16,
        r.1 < 16,
{
    (b / 16, b % 16)
}

/// Bit 0 of a byte, as 0 or 1.
pub fn bit0(b: u8) -> (r: u8)
    ensures
        r == bit_at(b, 1),
        r == b % 2,
        r <= 1,
{
    b % 2
}

/// Bit 1 of a byte, as 0 or 1.
pub fn bit1(b: u8) -> (r: u8)
    ensures
        r == bit_at(b, 2),
        r == (b / 2) % 2,
        r <= 1,
{
    (b / 2) % 2
}

/// Bit 2 of a byte, as 0 or 1.
pub fn bit2(b: u8) -> (r: u8)
    ensures
        r == bit_at(b, 4),
        r == (b / 4) % 2,
        r <= 1,
{
    (b / 4) % 2
}

/// Reads the byte at `at`.
pub fn read_u8(input: &[u8], at: usize) -> (r: Result<u8, ParseError>)
    ensures
        at < input@.len() ==> r == Ok::<u8, ParseError>(input@[at as int]),
        at >= input@.len() ==> r == Err::<u8, ParseError>(truncated(at as int)),
{
    if at < input.len() {
        Ok(input[at])
    } else {
        Err(ParseError { kind: ParseErrorKind::Truncated, offset: at })
    }
}

/// Whether `n` bytes starting at `at` lie inside an input of `len` bytes.
pub open spec fn fits(len: nat, at: int, n: int) -> bool {
    0 <= at && 0 <= n && at + n <= len
}

/// Tells whether `n` bytes starting at `at` lie inside `input`.
pub fn has_bytes(input: &[u8], at: usize, n: usize) -> (r: bool)
    ensures
        r == fits(input@.len(), at as int, n as int),
{
    at <= input.len() && n <= input.len() - at
}

/// Reads an unsigned little-endian 16-bit integer at `at`.
pub fn read_u16_le(input: &[u8], at: usize) -> (r: Result<u16, ParseError>)
    ensures
        fits(input@.len(), at as int, 2) ==> r == Ok::<u16, ParseError>(le_u16(input@, at as int)),
        !fits(input@.len(), at as int, 2) ==> r == Err::<u16, ParseError>(truncated(at as int)),
{
    if !has_bytes(input, at, 2) {
        return Err(ParseError { kind: ParseErrorKind::Truncated, offset: at });
    }
    let lo: u16 = input[at] as u16;
    let hi: u16 = input[at + 1] as u16;
    Ok(lo + hi * 256)
}

/// Reads a two's-complement little-endian 16-bit integer at `at`.
pub fn read_i16_le(input: &[u8], at: usize) -> (r: Result<i16, ParseError>)
    ensures
        fits(input@.len(), at as int, 2) ==> r == Ok::<i16, ParseError>(le_i16(input@, at as int)),
        !fits(input@.len(), at as int, 2) ==> r == Err::<i16, ParseError>(truncated(at as int)),
{
    match read_u16_le(input, at) {
        Ok(u) => {
            if u < 32768 {
                Ok(u as i16)
            } else {
                Ok((u as i32 - 65536) as i16)
            }
        },
        Err(e) => Err(e),
    }
}

/// Reads an unsigned little-endian 24-bit integer at `at`.
pub fn read_u24_le(input: &[u8], at: usize) -> (r: Result<u32, ParseError>)
    ensures
        fits(input@.len(), at as int, 3) ==> r == Ok::<u32, ParseError>(le_u24(input@, at as int)),
        !fits(input@.len(), at as int, 3) ==> r == Err::<u32, ParseError>(truncated(at as int)),
{
    if !has_bytes(input, at, 3) {
        return Err(ParseError { kind: ParseErrorKind::Truncated, offset: at });
    }
    let b0: u32 = input[at] as u32;
    let b1: u32 = input[at + 1] as u32;
    let b2: u32 = input[at + 2] as u32;
    Ok(b0 + b1 * 256 + b2 * 65536)
}

/// Reads an unsigned little-endian 32-bit integer at `at`.
pub fn read_u32_le(input: &[u8], at: usize) -> (r: Result<u32, ParseError>)
    ensures
        fits(input@.len(), at as int, 4) ==> r == Ok::<u32, ParseError>(le_u32(input@, at as int)),
        !fits(input@.len(), at as int, 4) ==> r == Err::<u32, ParseError>(truncated(at as int)),
{
    if !has_bytes(input, at, 4) {
        return Err(ParseError { kind: ParseErrorKind::Truncated, offset: at });
    }
    let b0: u32 = input[at] as u32;
    let b1: u32 = input[at + 1] as u32;
    let b2: u32 = input[at + 2] as u32;
    let b3: u32 = input[at + 3] as u32;
    Ok(b0 + b1 * 256 + b2 * 65536 + b3 * 16777216)
}

/// Reads a two's-complement little-endian 32-bit integer at `at`.
pub fn read_i32_le(input: &[u8], at: usize) -> (r: Result<i32, ParseError>)
    ensures
        fits(input@.len(), at as int, 4) ==> r == Ok::<i32, ParseError>(le_i32(input@, at as int)),
        !fits(input@.len(), at as int, 4) ==> r == Err::<i32, ParseError>(truncated(at as int)),
{
    match read_u32_le(input, at) {
        Ok(u) => {
            if u < 2147483648 {
                Ok(u as i32)
            } else {
                Ok((u as i64 - 4294967296) as i32)
            }
        },
        Err(e) => Err(e),
    }
}

/// Borrows the `n` bytes that start at `at`.
pub fn take(input: &[u8], at: usize, n: usize) -> (r: Result<&[u8], ParseError>)
    ensures
        fits(input@.len(), at as int, n as int) ==> r is Ok && r->Ok_0@ == input@.subrange(
            at as int,
            at + n,
        ),
        !fits(input@.len(), at as int, n as int) ==> r == Err::<&[u8], ParseError>(
            truncated(at as int),
        ),
{
    if !has_bytes(input, at, n) {
        return Err(ParseError { kind: ParseErrorKind::Truncated, offset: at });
    }
    let len = input.len();
    assert(at + n <= len);
    Ok(&input[at..at + n])
}

/// Copies the three bytes that start at `at`.
pub fn read_array3(input: &[u8], at: usize) -> (r: Result<[u8; 3], ParseError>)
    ensures
        fits(input@.len(), at as int, 3) ==> r is Ok && r->Ok_0@ == input@.subrange(
            at as int,
            at + 3,
        ),
        !fits(input@.len(), at as int, 3) ==> r == Err::<[u8; 3], ParseError>(truncated(at as int)),
{
    if !has_bytes(input, at, 3) {
        return Err(ParseError { kind: ParseErrorKind::Truncated, offset: at });
    }
    let a: [u8; 3] = [input[at], input[at + 1], input[at + 2]];
    assert(a@ =~= input@.subrange(at as int, at + 3));
    Ok(a)
}

/// Copies the six bytes that start at `at`.
pub fn read_array6(input: &[u8], at: usize) -> (r: Result<[u8; 6], ParseError>)
    ensures
        fits(input@.len(), at as int, 6) ==> r is Ok && r->Ok_0@ == input@.subrange(
            at as int,
            at + 6,
        ),
        !fits(input@.len(), at as int, 6) ==> r == Err::<[u8; 6], ParseError>(truncated(at as int)),
{
    if !has_bytes(input, at, 6) {
        return Err(ParseError { kind: ParseErrorKind::Truncated, offset: at });
    }
    let a: [u8; 6] = [
        input[at],
        input[at + 1],
        input[at + 2],
        input[at + 3],
        input[at + 4],
        input[at + 5],
    ];
    assert(a@ =~= input@.subrange(at as int, at + 6));
    Ok(a)
}

/// Borrows everything from `at` to the end of the input.
pub fn rest_from(input: &[u8], at: usize) -> (r: &[u8])
    requires
        at <= input@.len(),
    ensures
        r@ == input@.subrange(at as int, input@.len() as int),
{
    &input[at..input.len()]
}

} // verus!

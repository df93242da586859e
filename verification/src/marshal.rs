//! The wire encoding of report fields, as `ssmarshal` produces it.
//!
//! Reports that are described field by field are written with `ssmarshal`: every integer
//! at its fixed width, least significant byte first, one field after the other without
//! padding or length prefixes. The functions below hand single fields to
//! `ssmarshal::serialize`; what they promise about the bytes is taken from that
//! function's source and is not proved here.

use crate::codec::{high_byte, low_byte};
use vstd::prelude::*;

verus! {

/// `ssmarshal::Error`, the error of a failed serialization.
#[verifier::external_type_specification]
#[verifier::external_body]
pub struct ExMarshalError(ssmarshal::Error);

/// The byte that stands for a signed byte on the wire: its two's complement.
pub open spec fn signed_byte(value: i8) -> u8 {
    if value >= 0 {
        value as u8
    } else {
        (value + 256) as u8
    }
}

/// Calls `ssmarshal::serialize` for a `u8` on the part of `buf` that starts at `at`.
///
/// For an unsigned byte that function writes the byte itself to the first position of
/// the buffer it is given and reports one byte used. It fails, and in a debug build
/// panics, only for a buffer without room, which `requires` rules out.
#[verifier::external_body]
pub(crate) fn marshal_u8(buf: &mut [u8], at: usize, value: u8) -> (out: Result<usize, ssmarshal::Error>)
    requires
        at < old(buf)@.len(),
    ensures
        out is Ok,
        out->Ok_0 == 1,
        final(buf)@ == old(buf)@.update(at as int, value),
{
    ssmarshal::serialize(&mut buf[at..], &value)
}

/// Calls `ssmarshal::serialize` for an `i8` on the part of `buf` that starts at `at`.
///
/// For a signed byte that function writes the value cast to `u8`, its two's
/// complement, to the first position of the buffer it is given and reports one byte
/// used. It fails, and in a debug build panics, only for a buffer without room, which
/// `requires` rules out.
#[verifier::external_body]
pub(crate) fn marshal_i8(buf: &mut [u8], at: usize, value: i8) -> (out: Result<usize, ssmarshal::Error>)
    requires
        at < old(buf)@.len(),
    ensures
        out is Ok,
        out->Ok_0 == 1,
        final(buf)@ == old(buf)@.update(at as int, signed_byte(value)),
{
    ssmarshal::serialize(&mut buf[at..], &value)
}

/// Calls `ssmarshal::serialize` for a `u16` on the part of `buf` that starts at `at`.
///
/// For a 16-bit value that function writes the low byte to the first and the high byte
/// to the second position of the buffer it is given and reports two bytes used. It
/// fails, and in a debug build panics, only for a buffer with less than two bytes of
/// room, which `requires` rules out.
#[verifier::external_body]
pub(crate) fn marshal_u16(buf: &mut [u8], at: usize, value: u16) -> (out: Result<usize, ssmarshal::Error>)
    requires
        at + 2 <= old(buf)@.len(),
    ensures
        out is Ok,
        out->Ok_0 == 2,
        final(buf)@ == old(buf)@.update(at as int, low_byte(value)).update(
            at + 1,
            high_byte(value),
        ),
{
    ssmarshal::serialize(&mut buf[at..], &value)
}

/// Why a report could not be written to a buffer.
#[derive(Clone, Copy, Debug, PartialEq, Eq, Structural)]
pub enum MarshalError {
    /// The buffer is too short for the report.
    EndOfStream,
}

/// Writes an unsigned byte to `buf[at]` and returns the position after it.
pub(crate) fn put_u8(buf: &mut [u8], at: usize, value: u8) -> (result: Result<usize, MarshalError>)
    requires
        at < old(buf)@.len(),
    ensures
        result == Ok::<usize, MarshalError>((at + 1) as usize),
        final(buf)@ == old(buf)@.update(at as int, value),
{
    let room = buf.len();
    assert(at < room);
    match marshal_u8(buf, at, value) {
        Ok(used) => Ok(at + used),
        Err(_) => Err(MarshalError::EndOfStream),
    }
}

/// Writes a signed byte to `buf[at]` and returns the position after it.
pub(crate) fn put_i8(buf: &mut [u8], at: usize, value: i8) -> (result: Result<usize, MarshalError>)
    requires
        at < old(buf)@.len(),
    ensures
        result == Ok::<usize, MarshalError>((at + 1) as usize),
        final(buf)@ == old(buf)@.update(at as int, signed_byte(value)),
{
    let room = buf.len();
    assert(at < room);
    match marshal_i8(buf, at, value) {
        Ok(used) => Ok(at + used),
        Err(_) => Err(MarshalError::EndOfStream),
    }
}

/// Writes a 16-bit value to `buf[at]` and `buf[at + 1]`, low byte first, and returns the
/// position after it.
pub(crate) fn put_u16(buf: &mut [u8], at: usize, value: u16) -> (result: Result<usize, MarshalError>)
    requires
        at + 2 <= old(buf)@.len(),
    ensures
        result == Ok::<usize, MarshalError>((at + 2) as usize),
        final(buf)@ == old(buf)@.update(at as int, low_byte(value)).update(
            at + 1,
            high_byte(value),
        ),
{
    let room = buf.len();
    assert(at < room);
    match marshal_u16(buf, at, value) {
        Ok(used) => Ok(at + used),
        Err(_) => Err(MarshalError::EndOfStream),
    }
}

/// Writes the bytes of `values` to `buf` from position `at` on and returns the position
/// after them.
pub(crate) fn put_bytes(buf: &mut [u8], at: usize, values: &[u8]) -> (result: Result<usize, MarshalError>)
    requires
        at + values@.len() <= old(buf)@.len(),
    ensures
        result == Ok::<usize, MarshalError>((at + values@.len()) as usize),
        final(buf)@ == old(buf)@.take(at as int) + values@ + old(buf)@.skip(
            at + values@.len(),
        ),
{
    let count = values.len();
    let total = buf.len();
    let mut position = at;
    let mut i: usize = 0;
    while i < count
        invariant
            i <= count,
            count == values@.len(),
            total == buf@.len(),
            total == old(buf)@.len(),
            at + count <= total,
            position == at + i,
            buf@ == old(buf)@.take(at as int) + values@.take(i as int) + old(buf)@.skip(at + i),
        decreases count - i,
    {
        match put_u8(buf, position, values[i]) {
            Ok(next) => {
                position = next;
            },
            Err(error) => {
                return Err(error);
            },
        }
        assert(buf@ =~= old(buf)@.take(at as int) + values@.take(i + 1) + old(buf)@.skip(
            at + i + 1,
        ));
        i += 1;
    }
    assert(values@.take(count as int) =~= values@);
    Ok(position)
}

/// The byte of a signed value, computed.
pub fn byte_of_signed(value: i8) -> (byte: u8)
    ensures
        byte == signed_byte(value),
{
    if value >= 0 {
        value as u8
    } else {
        (value as i16 + 256) as u8
    }
}

/// The signed value that a byte stands for: the inverse of [`signed_byte`].
pub open spec fn signed_of_byte(byte: u8) -> i8 {
    if byte < 128 {
        byte as i8
    } else {
        (byte - 256) as i8
    }
}

/// The signed value of a byte, computed.
pub fn signed_from_byte(byte: u8) -> (value: i8)
    ensures
        value == signed_of_byte(byte),
{
    if byte < 128 {
        byte as i8
    } else {
        (byte as i16 - 256) as i8
    }
}

/// Signed values and their bytes correspond one to one.
pub proof fn lemma_signed_byte_round_trip(value: i8, byte: u8)
    ensures
        signed_of_byte(signed_byte(value)) == value,
        signed_byte(signed_of_byte(byte)) == byte,
{
}

} // verus!

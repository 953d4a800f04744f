//! Parser combinator helpers over byte slices.
//!
//! Each parser takes a slice, consumes a prefix and returns the remaining
//! slice together with the parsed value, or a decode error when the input is
//! too short. The combinators thread the remaining input through a caller
//! supplied function.

use vstd::prelude::*;

use crate::error::EepromError;
use crate::error::Error;
use crate::error::PduError;
use crate::wire::read_u16_le;
use crate::wire::read_u32_le;
use crate::wire::spec_u16_of_le;
use crate::wire::spec_u32_of_le;

verus! {

/// Apply `f` to a parsed value, keeping the remaining input.
pub fn map<T, U, F: FnOnce(T) -> U>(pair: (&[u8], T), f: F) -> (r: (&[u8], U))
    requires
        call_requires(f, (pair.1,)),
    ensures
        r.0 == pair.0,
        call_ensures(f, (pair.1,), r.1),
{
    let (i, value) = pair;
    (i, f(value))
}

/// Apply a fallible `f` to a parsed value, keeping the remaining input on
/// success and returning `f`'s error unchanged on failure.
pub fn map_res<T, U, F: FnOnce(T) -> Result<U, Error>>(pair: (&[u8], T), f: F) -> (r: Result<
    (&[u8], U),
    Error,
>)
    requires
        call_requires(f, (pair.1,)),
    ensures
        match r {
            Ok(p) => p.0 == pair.0 && call_ensures(f, (pair.1,), Ok(p.1)),
            Err(e) => call_ensures(f, (pair.1,), Err(e)),
        },
{
    let (i, value) = pair;
    match f(value) {
        Ok(value) => Ok((i, value)),
        Err(e) => Err(e),
    }
}

/// Apply a partial `f` to a parsed value, keeping the remaining input where
/// it applies and failing with an EEPROM decode error where it does not.
pub fn map_opt<T, U, F: FnOnce(T) -> Option<U>>(pair: (&[u8], T), f: F) -> (r: Result<
    (&[u8], U),
    Error,
>)
    requires
        call_requires(f, (pair.1,)),
    ensures
        match r {
            Ok(p) => p.0 == pair.0 && call_ensures(f, (pair.1,), Some(p.1)),
            Err(e) => e == Error::Eeprom(EepromError::Decode) && call_ensures(
                f,
                (pair.1,),
                None::<U>,
            ),
        },
{
    let (i, value) = pair;
    match f(value) {
        Some(res) => Ok((i, res)),
        None => Err(Error::Eeprom(EepromError::Decode)),
    }
}

/// Succeed exactly when the whole input has been consumed.
pub fn new_all_consumed(i: &[u8]) -> (r: Result<(), Error>)
    ensures
        i@.len() == 0 ==> r == Ok::<(), Error>(()),
        i@.len() > 0 ==> r == Err::<(), Error>(Error::Pdu(PduError::Decode)),
{
    if i.is_empty() {
        return Ok(());
    }
    Err(Error::Pdu(PduError::Decode))
}

/// Consume two bytes as a little-endian unsigned 16-bit value.
pub fn new_le_u16(i: &[u8]) -> (r: Result<(&[u8], u16), Error>)
    ensures
        i@.len() >= 2 ==> (r matches Ok(p) && p.0@ == i@.skip(2) && p.1 == spec_u16_of_le(
            i@[0],
            i@[1],
        )),
        i@.len() < 2 ==> r == Err::<(&[u8], u16), Error>(Error::Eeprom(EepromError::Decode)),
{
    if i.len() < 2 {
        return Err(Error::Eeprom(EepromError::Decode));
    }
    let value = read_u16_le(i, 0);
    let rest = vstd::slice::slice_subrange(i, 2, i.len());
    Ok((rest, value))
}

/// Consume four bytes as a little-endian unsigned 32-bit value.
pub fn new_le_u32(i: &[u8]) -> (r: Result<(&[u8], u32), Error>)
    ensures
        i@.len() >= 4 ==> (r matches Ok(p) && p.0@ == i@.skip(4) && p.1 == spec_u32_of_le(
            i@[0],
            i@[1],
            i@[2],
            i@[3],
        )),
        i@.len() < 4 ==> r == Err::<(&[u8], u32), Error>(Error::Eeprom(EepromError::Decode)),
{
    if i.len() < 4 {
        return Err(Error::Eeprom(EepromError::Decode));
    }
    let value = read_u32_le(i, 0);
    let rest = vstd::slice::slice_subrange(i, 4, i.len());
    Ok((rest, value))
}

/// Consume two bytes as a little-endian signed 16-bit value.
pub fn new_le_i16(i: &[u8]) -> (r: Result<(&[u8], i16), Error>)
    ensures
        i@.len() >= 2 ==> (r matches Ok(p) && p.0@ == i@.skip(2) && p.1 == spec_u16_of_le(
            i@[0],
            i@[1],
        ) as i16),
        i@.len() < 2 ==> r == Err::<(&[u8], i16), Error>(Error::Eeprom(EepromError::Decode)),
{
    if i.len() < 2 {
        return Err(Error::Eeprom(EepromError::Decode));
    }
    let value = read_u16_le(i, 0);
    let rest = vstd::slice::slice_subrange(i, 2, i.len());
    Ok((rest, value as i16))
}

/// Consume one byte.
pub fn new_le_u8(i: &[u8]) -> (r: Result<(&[u8], u8), Error>)
    ensures
        i@.len() >= 1 ==> (r matches Ok(p) && p.0@ == i@.skip(1) && p.1 == i@[0]),
        i@.len() < 1 ==> r == Err::<(&[u8], u8), Error>(Error::Eeprom(EepromError::Decode)),
{
    if i.is_empty() {
        return Err(Error::Eeprom(EepromError::Decode));
    }
    let first = *vstd::slice::slice_index_get(i, 0);
    let rest = vstd::slice::slice_subrange(i, 1, i.len());
    Ok((rest, first))
}

/// Consume `n` bytes, returning them as a slice.
pub fn take_bytes(i: &[u8], n: usize) -> (r: Result<(&[u8], &[u8]), Error>)
    ensures
        i@.len() >= n ==> (r matches Ok(p) && p.0@ == i@.skip(n as int) && p.1@ == i@.take(
            n as int,
        )),
        i@.len() < n ==> r == Err::<(&[u8], &[u8]), Error>(Error::Eeprom(EepromError::Decode)),
{
    if i.len() < n {
        return Err(Error::Eeprom(EepromError::Decode));
    }
    let taken = vstd::slice::slice_subrange(i, 0, n);
    let rest = vstd::slice::slice_subrange(i, n, i.len());
    Ok((rest, taken))
}

} // verus!

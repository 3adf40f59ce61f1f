use vstd::prelude::*;

use vstd::bytes::u32_from_le_bytes;
use vstd::bytes::u32_to_le_bytes;

use crate::codec::spec_decode_u32_record;
use crate::codec::spec_encode_u32_record;
use crate::codec::STATE_SIZE;
use crate::error::ProcessError;

verus! {

/// The persisted state of a squaring account: one unsigned 32-bit value that
/// each invocation replaces with its square.
#[derive(Clone, Copy, Debug, PartialEq, Eq, Structural)]
pub struct MathStuffSquare {
    pub square: u32,
}

/// The persisted state of a running-sum account: one unsigned 32-bit value
/// that each invocation increments by one.
#[derive(Clone, Copy, Debug, PartialEq, Eq, Structural)]
pub struct MathStuffSum {
    pub sum: u32,
}

impl MathStuffSquare {
    /// The squaring transition. Arithmetic is checked: a square beyond the
    /// `u32` range is reported as `ArithmeticFault` rather than left to the
    /// platform's ambient overflow behavior.
    pub fn squared(&self) -> (r: Result<MathStuffSquare, ProcessError>)
        ensures
            r is Ok <==> self.square * self.square <= u32::MAX,
            r matches Ok(m) ==> m.square == self.square * self.square,
            r matches Err(e) ==> e == ProcessError::ArithmeticFault,
    {
        match self.square.checked_mul(self.square) {
            Some(v) => Ok(MathStuffSquare { square: v }),
            None => Err(ProcessError::ArithmeticFault),
        }
    }
}

impl MathStuffSum {
    /// The increment transition, checked in the same way.
    pub fn incremented(&self) -> (r: Result<MathStuffSum, ProcessError>)
        ensures
            r is Ok <==> self.sum + 1 <= u32::MAX,
            r matches Ok(m) ==> m.sum == self.sum + 1,
            r matches Err(e) ==> e == ProcessError::ArithmeticFault,
    {
        match self.sum.checked_add(1) {
            Some(v) => Ok(MathStuffSum { sum: v }),
            None => Err(ProcessError::ArithmeticFault),
        }
    }
}

/// Decodes an account buffer into a squaring record. Fails with
/// `MalformedState` unless the buffer is exactly one record wide.
pub fn decode_square(bytes: &Vec<u8>) -> (r: Result<MathStuffSquare, ProcessError>)
    ensures
        spec_decode_u32_record(bytes@) matches Some(v) ==> (r matches Ok(m) && m.square == v),
        spec_decode_u32_record(bytes@) is None ==> (r matches Err(e) && e
            == ProcessError::MalformedState),
{
    if bytes.len() != STATE_SIZE {
        return Err(ProcessError::MalformedState);
    }
    Ok(MathStuffSquare { square: u32_from_le_bytes(bytes.as_slice()) })
}

/// Encodes a squaring record in the byte order `decode_square` reads.
pub fn encode_square(record: &MathStuffSquare) -> (r: Vec<u8>)
    ensures
        r@ == spec_encode_u32_record(record.square),
        r@.len() == STATE_SIZE,
{
    u32_to_le_bytes(record.square)
}

/// Decodes an account buffer into a running-sum record. Fails with
/// `MalformedState` unless the buffer is exactly one record wide.
pub fn decode_sum(bytes: &Vec<u8>) -> (r: Result<MathStuffSum, ProcessError>)
    ensures
        spec_decode_u32_record(bytes@) matches Some(v) ==> (r matches Ok(m) && m.sum == v),
        spec_decode_u32_record(bytes@) is None ==> (r matches Err(e) && e
            == ProcessError::MalformedState),
{
    if bytes.len() != STATE_SIZE {
        return Err(ProcessError::MalformedState);
    }
    Ok(MathStuffSum { sum: u32_from_le_bytes(bytes.as_slice()) })
}

/// Encodes a running-sum record in the byte order `decode_sum` reads.
pub fn encode_sum(record: &MathStuffSum) -> (r: Vec<u8>)
    ensures
        r@ == spec_encode_u32_record(record.sum),
        r@.len() == STATE_SIZE,
{
    u32_to_le_bytes(record.sum)
}

} // verus!

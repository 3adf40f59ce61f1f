use vstd::prelude::*;

use vstd::bytes::lemma_auto_spec_u32_to_from_le_bytes;
use vstd::bytes::spec_u32_from_le_bytes;
use vstd::bytes::spec_u32_to_le_bytes;
use vstd::bytes::u32_from_le_bytes;
use vstd::bytes::u32_to_le_bytes;
use vstd::slice::slice_subrange;

use crate::calculator::Calculator;
use crate::calculator::CalculatorInstruction;
use crate::calculator::CalculatorOperation;
use crate::error::ProcessError;

verus! {

/// The fixed size of an encoded state record: one little-endian 32-bit field,
/// no header, no checksum.
pub const STATE_SIZE: usize = 4;

/// The fixed size of an encoded instruction record: one tag byte followed by
/// a little-endian 32-bit operand.
pub const INSTRUCTION_SIZE: usize = 5;

/// The wire image of a signed 32-bit value: its two's-complement bits in
/// little-endian order.
pub open spec fn spec_encode_i32(v: i32) -> Seq<u8> {
    spec_u32_to_le_bytes(v as u32)
}

/// The signed 32-bit value carried by four little-endian bytes.
pub open spec fn spec_decode_i32(s: Seq<u8>) -> i32
    recommends
        s.len() == 4,
{
    spec_u32_from_le_bytes(s) as i32
}

/// The wire image of a signed state record.
pub open spec fn spec_encode_state(v: i32) -> Seq<u8> {
    spec_encode_i32(v)
}

/// What decoding an account buffer yields: the state value when the buffer
/// is exactly one record wide, nothing otherwise.
pub open spec fn spec_decode_state(s: Seq<u8>) -> Option<i32> {
    if s.len() == STATE_SIZE {
        Some(spec_decode_i32(s))
    } else {
        None
    }
}

/// The wire image of an unsigned state record.
pub open spec fn spec_encode_u32_record(v: u32) -> Seq<u8> {
    spec_u32_to_le_bytes(v)
}

/// What decoding an unsigned record buffer yields. The unsigned and signed
/// records share a width but are distinct types: the bytes of a negative
/// signed value decode to a large unsigned one, so the two formats are never
/// unified.
pub open spec fn spec_decode_u32_record(s: Seq<u8>) -> Option<u32> {
    if s.len() == STATE_SIZE {
        Some(spec_u32_from_le_bytes(s))
    } else {
        None
    }
}

/// The operation a wire tag stands for; tags outside the enumeration decode
/// to nothing, never to a default operation.
pub open spec fn spec_operation_of_tag(tag: u8) -> Option<CalculatorOperation> {
    if tag == 0 {
        Some(CalculatorOperation::Add)
    } else if tag == 1 {
        Some(CalculatorOperation::Subtract)
    } else if tag == 2 {
        Some(CalculatorOperation::Multiply)
    } else if tag == 3 {
        Some(CalculatorOperation::Nullify)
    } else {
        None
    }
}

/// What decoding an instruction buffer yields: the tagged operation and its
/// operand when the buffer is exactly one record with a recognized tag.
pub open spec fn spec_decode_instruction(s: Seq<u8>) -> Option<CalculatorInstruction> {
    if s.len() == INSTRUCTION_SIZE {
        match spec_operation_of_tag(s[0]) {
            Some(op) => Some(
                CalculatorInstruction { operation: op, value: spec_decode_i32(s.subrange(1, 5)) },
            ),
            None => None,
        }
    } else {
        None
    }
}

/// Decodes an account buffer into a state record. Fails with
/// `MalformedState` unless the buffer is exactly one record wide.
pub fn decode_state(bytes: &Vec<u8>) -> (r: Result<Calculator, ProcessError>)
    ensures
        spec_decode_state(bytes@) matches Some(v) ==> (r matches Ok(c) && c.value == v),
        spec_decode_state(bytes@) is None ==> (r matches Err(e) && e
            == ProcessError::MalformedState),
{
    if bytes.len() != STATE_SIZE {
        return Err(ProcessError::MalformedState);
    }
    let u = u32_from_le_bytes(bytes.as_slice());
    Ok(Calculator { value: #[verifier::truncate] (u as i32) })
}

/// Encodes a state record into exactly one record's width of bytes, in the
/// byte order `decode_state` reads.
pub fn encode_state(state: &Calculator) -> (r: Vec<u8>)
    ensures
        r@ == spec_encode_state(state.value),
        r@.len() == STATE_SIZE,
{
    u32_to_le_bytes(#[verifier::truncate] (state.value as u32))
}

/// Decodes an instruction buffer. Fails with `MalformedInstruction` when the
/// buffer is truncated, oversized, or tagged with an operation outside the
/// enumeration.
pub fn decode_instruction(bytes: &Vec<u8>) -> (r: Result<CalculatorInstruction, ProcessError>)
    ensures
        spec_decode_instruction(bytes@) matches Some(i) ==> (r matches Ok(d) && d == i),
        spec_decode_instruction(bytes@) is None ==> (r matches Err(e) && e
            == ProcessError::MalformedInstruction),
{
    if bytes.len() != INSTRUCTION_SIZE {
        return Err(ProcessError::MalformedInstruction);
    }
    let operation = match bytes[0] {
        0u8 => CalculatorOperation::Add,
        1u8 => CalculatorOperation::Subtract,
        2u8 => CalculatorOperation::Multiply,
        3u8 => CalculatorOperation::Nullify,
        _ => {
            return Err(ProcessError::MalformedInstruction);
        },
    };
    let operand_bytes = slice_subrange(bytes.as_slice(), 1, 5);
    let u = u32_from_le_bytes(operand_bytes);
    Ok(CalculatorInstruction { operation, value: #[verifier::truncate] (u as i32) })
}

/// Law: decoding an encoded state record yields the record back, for every
/// representable value.
pub proof fn lemma_state_round_trip(v: i32)
    ensures
        spec_decode_state(spec_encode_state(v)) == Some(v),
{
    lemma_auto_spec_u32_to_from_le_bytes();
    assert(v as u32 as i32 == v) by (bit_vector);
}

/// Law: decoding an encoded unsigned record yields the record back, for
/// every representable value.
pub proof fn lemma_u32_record_round_trip(v: u32)
    ensures
        spec_decode_u32_record(spec_encode_u32_record(v)) == Some(v),
{
    lemma_auto_spec_u32_to_from_le_bytes();
}

} // verus!

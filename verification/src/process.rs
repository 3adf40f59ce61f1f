use vstd::prelude::*;

use crate::calculator::evaluate_in_range;
use crate::calculator::spec_evaluate;
use crate::calculator::Calculator;
use crate::codec::decode_instruction;
use crate::codec::decode_state;
use crate::codec::encode_state;
use crate::codec::spec_decode_instruction;
use crate::codec::spec_decode_state;
use crate::codec::spec_decode_u32_record;
use crate::codec::spec_encode_state;
use crate::codec::spec_encode_u32_record;
use crate::error::ProcessError;
use crate::math_stuff::decode_square;
use crate::math_stuff::decode_sum;
use crate::math_stuff::encode_square;
use crate::math_stuff::encode_sum;

verus! {

/// An account as the host hands it to the core: the declared owner identity
/// and the raw byte buffer holding the serialized state. The core never
/// allocates or frees the buffer's storage role; it only reads the bytes and
/// overwrites them in full on success.
#[derive(Clone, Debug, PartialEq, Eq)]
pub struct AccountHandle {
    pub owner: Vec<u8>,
    pub data: Vec<u8>,
}

/// Whether two identities are the same, byte for byte.
fn identity_matches(a: &Vec<u8>, b: &Vec<u8>) -> (r: bool)
    ensures
        r <==> a@ == b@,
{
    if a.len() != b.len() {
        return false;
    }
    let mut i: usize = 0;
    while i < a.len()
        invariant
            i <= a@.len(),
            a@.len() == b@.len(),
            forall|j: int| 0 <= j < i ==> a@[j] == b@[j],
        decreases a@.len() - i,
    {
        if a[i] != b[i] {
            return false;
        }
        i += 1;
    }
    proof {
        assert(a@ =~= b@);
    }
    true
}

/// The outcome one calculator invocation must have, as a function of its
/// inputs alone: the new state value, or the failure that aborts it.
pub open spec fn spec_process(
    owner: Seq<u8>,
    data: Seq<u8>,
    identity: Seq<u8>,
    instruction: Seq<u8>,
) -> Result<i32, ProcessError> {
    if owner != identity {
        Err(ProcessError::OwnershipViolation)
    } else {
        match spec_decode_state(data) {
            None => Err(ProcessError::MalformedState),
            Some(value) => match spec_decode_instruction(instruction) {
                None => Err(ProcessError::MalformedInstruction),
                Some(ins) => if evaluate_in_range(ins.operation, ins.value as int, value as int) {
                    Ok(spec_evaluate(ins.operation, ins.value as int, value as int) as i32)
                } else {
                    Err(ProcessError::ArithmeticFault)
                },
            },
        }
    }
}

/// Runs one calculator invocation: validates that the caller owns the
/// account, decodes the state and the instruction, evaluates the transition,
/// and writes the new state back over the account buffer.
///
/// Every failure aborts before the write, so the buffer is unchanged unless
/// the whole invocation succeeds; the owner is never touched. On success the
/// new value is returned for the host's diagnostic log line.
pub fn process(
    account: &mut AccountHandle,
    program_identity: &Vec<u8>,
    instruction_data: &Vec<u8>,
) -> (r: Result<i32, ProcessError>)
    ensures
        r == spec_process(
            old(account).owner@,
            old(account).data@,
            program_identity@,
            instruction_data@,
        ),
        final(account).owner@ == old(account).owner@,
        r matches Ok(v) ==> final(account).data@ == spec_encode_state(v),
        r is Err ==> final(account).data@ == old(account).data@,
{
    if !identity_matches(&account.owner, program_identity) {
        return Err(ProcessError::OwnershipViolation);
    }
    let state = match decode_state(&account.data) {
        Ok(s) => s,
        Err(e) => {
            return Err(e);
        },
    };
    let instruction = match decode_instruction(instruction_data) {
        Ok(i) => i,
        Err(e) => {
            return Err(e);
        },
    };
    let new_value = match instruction.evaluate(state.value) {
        Ok(v) => v,
        Err(e) => {
            return Err(e);
        },
    };
    account.data = encode_state(&Calculator { value: new_value });
    Ok(new_value)
}

/// The outcome one squaring invocation must have.
pub open spec fn spec_process_square(owner: Seq<u8>, data: Seq<u8>, identity: Seq<u8>) -> Result<
    u32,
    ProcessError,
> {
    if owner != identity {
        Err(ProcessError::OwnershipViolation)
    } else {
        match spec_decode_u32_record(data) {
            None => Err(ProcessError::MalformedState),
            Some(v) => if v * v <= u32::MAX {
                Ok((v * v) as u32)
            } else {
                Err(ProcessError::ArithmeticFault)
            },
        }
    }
}

/// Runs one squaring invocation: the account's value is replaced by its
/// square, under the same ownership gate and all-or-nothing write as
/// `process`.
pub fn process_square(account: &mut AccountHandle, program_identity: &Vec<u8>) -> (r: Result<
    u32,
    ProcessError,
>)
    ensures
        r == spec_process_square(old(account).owner@, old(account).data@, program_identity@),
        final(account).owner@ == old(account).owner@,
        r matches Ok(v) ==> final(account).data@ == spec_encode_u32_record(v),
        r is Err ==> final(account).data@ == old(account).data@,
{
    if !identity_matches(&account.owner, program_identity) {
        return Err(ProcessError::OwnershipViolation);
    }
    let record = match decode_square(&account.data) {
        Ok(m) => m,
        Err(e) => {
            return Err(e);
        },
    };
    let next = match record.squared() {
        Ok(m) => m,
        Err(e) => {
            return Err(e);
        },
    };
    account.data = encode_square(&next);
    Ok(next.square)
}

/// The outcome one running-sum invocation must have.
pub open spec fn spec_process_sum(owner: Seq<u8>, data: Seq<u8>, identity: Seq<u8>) -> Result<
    u32,
    ProcessError,
> {
    if owner != identity {
        Err(ProcessError::OwnershipViolation)
    } else {
        match spec_decode_u32_record(data) {
            None => Err(ProcessError::MalformedState),
            Some(v) => if v + 1 <= u32::MAX {
                Ok((v + 1) as u32)
            } else {
                Err(ProcessError::ArithmeticFault)
            },
        }
    }
}

/// Runs one running-sum invocation: the account's value is incremented by
/// one, under the same ownership gate and all-or-nothing write as `process`.
pub fn process_sum(account: &mut AccountHandle, program_identity: &Vec<u8>) -> (r: Result<
    u32,
    ProcessError,
>)
    ensures
        r == spec_process_sum(old(account).owner@, old(account).data@, program_identity@),
        final(account).owner@ == old(account).owner@,
        r matches Ok(v) ==> final(account).data@ == spec_encode_u32_record(v),
        r is Err ==> final(account).data@ == old(account).data@,
{
    if !identity_matches(&account.owner, program_identity) {
        return Err(ProcessError::OwnershipViolation);
    }
    let record = match decode_sum(&account.data) {
        Ok(m) => m,
        Err(e) => {
            return Err(e);
        },
    };
    let next = match record.incremented() {
        Ok(m) => m,
        Err(e) => {
            return Err(e);
        },
    };
    account.data = encode_sum(&next);
    Ok(next.sum)
}

} // verus!

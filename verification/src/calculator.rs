use vstd::prelude::*;

use crate::error::ProcessError;

verus! {

/// The persisted state of a calculator account: a single signed 32-bit value.
#[derive(Clone, Copy, Debug, PartialEq, Eq, Structural)]
pub struct Calculator {
    pub value: i32,
}

/// The closed set of operations an instruction may request. Any other wire
/// tag is rejected at decode time, never defaulted.
#[derive(Clone, Copy, Debug, PartialEq, Eq, Structural)]
pub enum CalculatorOperation {
    Add,
    Subtract,
    Multiply,
    Nullify,
}

/// One requested state transition: an operation and its operand. Decoded
/// fresh on every invocation and never persisted.
#[derive(Clone, Copy, Debug, PartialEq, Eq, Structural)]
pub struct CalculatorInstruction {
    pub operation: CalculatorOperation,
    pub value: i32,
}

/// The mathematical state transition: the new value an instruction maps the
/// current value to, over unbounded integers.
pub open spec fn spec_evaluate(op: CalculatorOperation, operand: int, value: int) -> int {
    match op {
        CalculatorOperation::Add => value + operand,
        CalculatorOperation::Subtract => value - operand,
        CalculatorOperation::Multiply => value * operand,
        CalculatorOperation::Nullify => 0,
    }
}

/// Whether the mathematical result of an instruction stays representable as
/// an `i32`; outside this range evaluation reports an arithmetic fault.
pub open spec fn evaluate_in_range(op: CalculatorOperation, operand: int, value: int) -> bool {
    i32::MIN <= spec_evaluate(op, operand, value) <= i32::MAX
}

impl CalculatorInstruction {
    /// Applies this instruction to the current state value.
    ///
    /// Arithmetic is checked: a result outside the `i32` range is reported
    /// as `ArithmeticFault` rather than wrapping or panicking.
    pub fn evaluate(&self, value: i32) -> (r: Result<i32, ProcessError>)
        ensures
            r is Ok <==> evaluate_in_range(self.operation, self.value as int, value as int),
            r matches Ok(v) ==> v as int == spec_evaluate(
                self.operation,
                self.value as int,
                value as int,
            ),
            r matches Err(e) ==> e == ProcessError::ArithmeticFault,
    {
        let checked: Option<i32> = match self.operation {
            CalculatorOperation::Add => value.checked_add(self.value),
            CalculatorOperation::Subtract => value.checked_sub(self.value),
            CalculatorOperation::Multiply => value.checked_mul(self.value),
            CalculatorOperation::Nullify => Some(0),
        };
        match checked {
            Some(v) => Ok(v),
            None => Err(ProcessError::ArithmeticFault),
        }
    }
}

/// Law: `Nullify` always succeeds and always yields zero, so applying it to
/// the result of applying it — to any value at all — still yields zero.
pub proof fn lemma_nullify_idempotent(operand: int, x: int)
    ensures
        spec_evaluate(CalculatorOperation::Nullify, operand, x) == 0,
        spec_evaluate(
            CalculatorOperation::Nullify,
            operand,
            spec_evaluate(CalculatorOperation::Nullify, operand, x),
        ) == 0,
        evaluate_in_range(CalculatorOperation::Nullify, operand, x),
{
}

} // verus!

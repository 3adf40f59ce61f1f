use borsh::BorshDeserialize;

use calculator::calculator::Calculator;
use calculator::calculator::CalculatorOperation;
use calculator::codec::decode_instruction;
use calculator::codec::decode_state;
use calculator::codec::encode_state;
use calculator::error::ProcessError;
use calculator::math_stuff::decode_square;
use calculator::math_stuff::decode_sum;
use calculator::math_stuff::encode_square;
use calculator::math_stuff::encode_sum;
use calculator::math_stuff::MathStuffSquare;
use calculator::math_stuff::MathStuffSum;

#[test]
fn state_round_trips() {
    let values = [0, 1, -1, 5, 42, -123456, i32::MAX, i32::MIN];
    for v in values {
        let bytes = encode_state(&Calculator { value: v });
        assert_eq!(4, bytes.len());
        assert_eq!(v, decode_state(&bytes).unwrap().value);
    }
}

#[test]
fn unsigned_records_round_trip() {
    let values = [0, 1, 7, 49, u32::MAX];
    for v in values {
        let square_bytes = encode_square(&MathStuffSquare { square: v });
        assert_eq!(v, decode_square(&square_bytes).unwrap().square);
        let sum_bytes = encode_sum(&MathStuffSum { sum: v });
        assert_eq!(v, decode_sum(&sum_bytes).unwrap().sum);
    }
}

#[test]
fn state_encoding_matches_borsh() {
    assert_eq!(
        borsh::to_vec(&5i32).unwrap(),
        encode_state(&Calculator { value: 5 })
    );
    assert_eq!(
        borsh::to_vec(&-1i32).unwrap(),
        encode_state(&Calculator { value: -1 })
    );
    assert_eq!(
        borsh::to_vec(&i32::MIN).unwrap(),
        encode_state(&Calculator { value: i32::MIN })
    );
}

#[test]
fn state_decoding_matches_borsh() {
    let bytes = encode_state(&Calculator { value: -77 });
    assert_eq!(-77, i32::try_from_slice(&bytes).unwrap());
    assert_eq!(-77, decode_state(&bytes).unwrap().value);
}

#[test]
fn instruction_decoding_matches_borsh() {
    // An instruction on the wire is a one-byte tag followed by the operand,
    // which is exactly how borsh lays out a (u8, i32) pair.
    let bytes = borsh::to_vec(&(2u8, 2i32)).unwrap();
    let decoded = decode_instruction(&bytes).unwrap();
    assert_eq!(CalculatorOperation::Multiply, decoded.operation);
    assert_eq!(2, decoded.value);

    let bytes = borsh::to_vec(&(1u8, -9i32)).unwrap();
    let decoded = decode_instruction(&bytes).unwrap();
    assert_eq!(CalculatorOperation::Subtract, decoded.operation);
    assert_eq!(-9, decoded.value);
}

#[test]
fn truncated_state_is_malformed() {
    assert_eq!(Err(ProcessError::MalformedState), decode_state(&vec![]));
    assert_eq!(
        Err(ProcessError::MalformedState),
        decode_state(&vec![1, 2, 3])
    );
}

#[test]
fn oversized_state_is_malformed() {
    assert_eq!(
        Err(ProcessError::MalformedState),
        decode_state(&vec![1, 2, 3, 4, 5])
    );
}

#[test]
fn truncated_unsigned_record_is_malformed() {
    assert_eq!(Err(ProcessError::MalformedState), decode_square(&vec![9]));
    assert_eq!(Err(ProcessError::MalformedState), decode_sum(&vec![9, 9]));
}

#[test]
fn every_tag_in_range_decodes() {
    let expected = [
        CalculatorOperation::Add,
        CalculatorOperation::Subtract,
        CalculatorOperation::Multiply,
        CalculatorOperation::Nullify,
    ];
    for (tag, op) in expected.iter().enumerate() {
        let decoded = decode_instruction(&vec![tag as u8, 1, 0, 0, 0]).unwrap();
        assert_eq!(*op, decoded.operation);
        assert_eq!(1, decoded.value);
    }
}

#[test]
fn unknown_tag_is_malformed() {
    assert_eq!(
        Err(ProcessError::MalformedInstruction),
        decode_instruction(&vec![4, 0, 0, 0, 0])
    );
    assert_eq!(
        Err(ProcessError::MalformedInstruction),
        decode_instruction(&vec![255, 0, 0, 0, 0])
    );
}

#[test]
fn truncated_instruction_is_malformed() {
    assert_eq!(
        Err(ProcessError::MalformedInstruction),
        decode_instruction(&vec![])
    );
    assert_eq!(
        Err(ProcessError::MalformedInstruction),
        decode_instruction(&vec![0, 1])
    );
    assert_eq!(
        Err(ProcessError::MalformedInstruction),
        decode_instruction(&vec![0, 1, 0, 0])
    );
}

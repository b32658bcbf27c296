use calculator_program::account::Account;
use calculator_program::account::AccountContext;
use calculator_program::account::Pubkey;
use calculator_program::codec::decode;
use calculator_program::codec::encode;
use calculator_program::codec::CalculatorAccount;
use calculator_program::dispatch::process_instruction;
use calculator_program::error::CalcError;
use calculator_program::instruction::parse;
use calculator_program::instruction::Instruction;

fn add_op(a: u64, b: u64) -> u64 {
    (f64::from_bits(a) + f64::from_bits(b)).to_bits()
}

fn sub_op(a: u64, b: u64) -> u64 {
    (f64::from_bits(a) - f64::from_bits(b)).to_bits()
}

fn account(owned: bool, data: Vec<u8>) -> Account {
    Account {
        context: AccountContext {
            identity: Pubkey { bytes: [0u8; 32] },
            is_owned_by_program: owned,
            is_writable: true,
        },
        data,
    }
}

fn payload(opcode: u8, num1: f64, num2: f64) -> Vec<u8> {
    let mut instruction_data = vec![0; 17];
    instruction_data[0] = opcode;
    instruction_data[1..9].copy_from_slice(&num1.to_le_bytes());
    instruction_data[9..17].copy_from_slice(&num2.to_le_bytes());
    instruction_data
}

fn stored_result(accounts: &[Account]) -> f64 {
    let record = decode(&accounts[0].data).unwrap();
    f64::from_bits(record.result_bits)
}

#[test]
fn test_calculator_contract() {
    let mut accounts = vec![account(true, vec![0; 8])];
    let mut instruction_data = vec![0; 17];

    instruction_data[0] = 0;
    let num1: f64 = 3.5;
    let num2: f64 = 2.0;
    instruction_data[1..9].copy_from_slice(&num1.to_le_bytes());
    instruction_data[9..17].copy_from_slice(&num2.to_le_bytes());

    process_instruction(&mut accounts, &instruction_data, add_op, sub_op).unwrap();
    assert_eq!(stored_result(&accounts), 5.5);

    instruction_data[0] = 1;
    let num1: f64 = 5.7;
    let num2: f64 = 2.5;
    instruction_data[1..9].copy_from_slice(&num1.to_le_bytes());
    instruction_data[9..17].copy_from_slice(&num2.to_le_bytes());

    process_instruction(&mut accounts, &instruction_data, add_op, sub_op).unwrap();
    assert_eq!(stored_result(&accounts), 3.2);
}

#[test]
fn first_use_zero_init() {
    // A buffer the host has not yet associated with the program holds
    // arbitrary bytes; the invocation still ends with exactly 3.5 + 2.0.
    let mut accounts = vec![account(false, vec![0xab; 8])];
    process_instruction(&mut accounts, &payload(0, 3.5, 2.0), add_op, sub_op).unwrap();
    assert_eq!(stored_result(&accounts), 5.5);
}

#[test]
fn first_use_failed_parse_leaves_zero_record() {
    // The zero record is written before the payload is parsed, so a payload
    // error still leaves the fresh record behind.
    let mut accounts = vec![account(false, vec![0xab; 8])];
    let err = process_instruction(&mut accounts, &[9u8], add_op, sub_op).unwrap_err();
    assert_eq!(err, CalcError::UnknownOpcode);
    assert_eq!(accounts[0].data, vec![0u8; 8]);
}

#[test]
fn chained_instructions_ignore_prior_state() {
    // The second result is 5.7 - 2.5 alone, independent of the stored 5.5.
    let mut accounts = vec![account(false, vec![0; 8])];
    process_instruction(&mut accounts, &payload(0, 3.5, 2.0), add_op, sub_op).unwrap();
    assert_eq!(stored_result(&accounts), 5.5);
    process_instruction(&mut accounts, &payload(1, 5.7, 2.5), add_op, sub_op).unwrap();
    assert_eq!(stored_result(&accounts), 3.2);
}

#[test]
fn truncated_operands_rejected() {
    let mut accounts = vec![account(true, vec![0; 8])];
    let err = process_instruction(&mut accounts, &vec![0u8; 10], add_op, sub_op).unwrap_err();
    assert_eq!(err, CalcError::TruncatedOperands);
}

#[test]
fn empty_instruction_rejected() {
    let mut accounts = vec![account(true, vec![0; 8])];
    let err = process_instruction(&mut accounts, &[], add_op, sub_op).unwrap_err();
    assert_eq!(err, CalcError::EmptyInstruction);
}

#[test]
fn unknown_opcode_rejected() {
    let mut accounts = vec![account(true, vec![0; 8])];
    let err = process_instruction(&mut accounts, &vec![2u8; 17], add_op, sub_op).unwrap_err();
    assert_eq!(err, CalcError::UnknownOpcode);
}

#[test]
fn missing_account_rejected() {
    let mut accounts: Vec<Account> = vec![];
    let err = process_instruction(&mut accounts, &payload(0, 1.0, 2.0), add_op, sub_op)
        .unwrap_err();
    assert_eq!(err, CalcError::MissingAccount);
}

#[test]
fn short_buffer_rejected() {
    // Owned and too short: no record can be decoded.
    let mut accounts = vec![account(true, vec![0; 7])];
    let err = process_instruction(&mut accounts, &payload(0, 1.0, 2.0), add_op, sub_op)
        .unwrap_err();
    assert_eq!(err, CalcError::MalformedState);

    // Not yet owned and too short: the first-use record write fails.
    let mut accounts = vec![account(false, vec![0; 7])];
    let err = process_instruction(&mut accounts, &payload(0, 1.0, 2.0), add_op, sub_op)
        .unwrap_err();
    assert_eq!(err, CalcError::BufferTooSmall);
}

#[test]
fn codec_rejects_short_buffers() {
    assert_eq!(decode(&[0u8; 7]).unwrap_err(), CalcError::MalformedState);
    let record = CalculatorAccount { result_bits: 1 };
    let mut buffer = vec![0u8; 7];
    assert_eq!(encode(&record, &mut buffer).unwrap_err(), CalcError::BufferTooSmall);
    assert_eq!(buffer, vec![0u8; 7]);
}

#[test]
fn codec_round_trips_bit_for_bit() {
    for bits in [
        0u64,
        (-0.0f64).to_bits(),
        1.5f64.to_bits(),
        f64::NAN.to_bits(),
        f64::INFINITY.to_bits(),
        f64::NEG_INFINITY.to_bits(),
        0x7ff0_0000_0000_0001u64, // a signalling NaN pattern
        u64::MAX,
    ] {
        let record = CalculatorAccount { result_bits: bits };
        let mut buffer = vec![0xcd; 12];
        encode(&record, &mut buffer).unwrap();
        assert_eq!(&buffer[8..], &[0xcd; 4]);
        assert_eq!(decode(&buffer).unwrap(), record);
    }
}

#[test]
fn parse_extracts_little_endian_operands() {
    let data = payload(0, 3.5, -2.0);
    assert_eq!(
        parse(&data).unwrap(),
        Instruction::Add { num1_bits: 3.5f64.to_bits(), num2_bits: (-2.0f64).to_bits() }
    );
    let data = payload(1, f64::NAN, 0.5);
    assert_eq!(
        parse(&data).unwrap(),
        Instruction::Subtract { num1_bits: f64::NAN.to_bits(), num2_bits: 0.5f64.to_bits() }
    );
}

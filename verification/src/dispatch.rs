//! The entry dispatcher: the single externally invoked entry point.
//!
//! Per invocation it resolves the target account, zero-initializes a
//! first-use buffer, decodes the current record, parses the instruction,
//! runs the transition, and persists the new record — or fails with the
//! step's error.
//!
//! The numeric transforms themselves are IEEE-754 double-precision
//! operations, which this library does not perform: the host passes them in
//! as the two operation arguments, and the contract ties every bit of the
//! persisted buffer to what those arguments return on the two operand bit
//! patterns decoded from the payload — and to nothing else, so the prior
//! record never enters the result.

use vstd::prelude::*;

use crate::account::Account;
use crate::codec::decode;
use crate::codec::encode;
use crate::codec::store_record;
use crate::codec::CalculatorAccount;
use crate::error::CalcError;
use crate::instruction::parse;
use crate::instruction::parse_spec;
use crate::instruction::Instruction;

verus! {

/// The buffer after the first-use initialization step: when the host does
/// not yet report the account as owned by this program, a zero-valued
/// record is written over the first eight bytes before anything is read; a
/// buffer too short for that write is left unchanged, the write having
/// failed.
pub open spec fn init_data(owned: bool, data: Seq<u8>) -> Seq<u8> {
    if !owned && data.len() >= 8 {
        store_record(0, data)
    } else {
        data
    }
}

/// The outcome of every step of an invocation up to the transition itself:
/// either the decoded instruction, or the error the invocation fails with.
/// First-use initialization of a too-short buffer fails its record write;
/// then decoding fails on a too-short buffer; then the payload is parsed.
pub open spec fn prepare_spec(owned: bool, data: Seq<u8>, payload: Seq<u8>) -> Result<
    Instruction,
    CalcError,
> {
    if !owned && data.len() < 8 {
        Err(CalcError::BufferTooSmall)
    } else if data.len() < 8 {
        Err(CalcError::MalformedState)
    } else {
        parse_spec(payload)
    }
}

/// Whether `result_bits` is a result the supplied operations allow for the
/// transition that `inst` selects: the add operation's contract on the two
/// operands for an addition, the sub operation's for a subtraction.  The
/// current record is no input: each instruction is a full recomputation
/// from its own operands.
pub open spec fn transition_ensures<FAdd: Fn(u64, u64) -> u64, FSub: Fn(u64, u64) -> u64>(
    inst: Instruction,
    add_op: FAdd,
    sub_op: FSub,
    result_bits: u64,
) -> bool {
    match inst {
        Instruction::Add { num1_bits, num2_bits } => call_ensures(
            add_op,
            (num1_bits, num2_bits),
            result_bits,
        ),
        Instruction::Subtract { num1_bits, num2_bits } => call_ensures(
            sub_op,
            (num1_bits, num2_bits),
            result_bits,
        ),
    }
}

/// Processes one invocation on the first account of the host-supplied list.
///
/// `add_op` and `sub_op` are the two double-precision transforms, each
/// taking and returning 64-bit IEEE-754 bit patterns; the host supplies
/// them and they must accept every pair of bit patterns.
///
/// On success the first account's buffer holds exactly the record computed
/// by the selected operation on the two operands decoded from the payload,
/// written over the rest of the initialized buffer; on failure the buffer
/// shows at most the first-use zero record.  No other account, and nothing
/// else of the first account, changes.
pub fn process_instruction<FAdd: Fn(u64, u64) -> u64, FSub: Fn(u64, u64) -> u64>(
    accounts: &mut Vec<Account>,
    instruction_data: &[u8],
    add_op: FAdd,
    sub_op: FSub,
) -> (r: Result<(), CalcError>)
    requires
        forall|a: u64, b: u64| #[trigger] call_requires(add_op, (a, b)),
        forall|a: u64, b: u64| #[trigger] call_requires(sub_op, (a, b)),
    ensures
        old(accounts)@.len() == 0 ==> r == Err::<(), CalcError>(CalcError::MissingAccount)
            && final(accounts)@ == old(accounts)@,
        old(accounts)@.len() > 0 ==> ({
            let ctx0 = old(accounts)@[0].context;
            let data0 = old(accounts)@[0].data@;
            let prepared = prepare_spec(ctx0.is_owned_by_program, data0, instruction_data@);
            final(accounts)@.len() == old(accounts)@.len() && final(accounts)@.skip(1) == old(
                accounts,
            )@.skip(1) && final(accounts)@[0].context == ctx0 && (prepared matches Err(e) ==> r
                == Err::<(), CalcError>(e) && final(accounts)@[0].data@ == init_data(
                ctx0.is_owned_by_program,
                data0,
            )) && (prepared matches Ok(inst) ==> r == Ok::<(), CalcError>(()) && exists|
                result_bits: u64,
            |
                transition_ensures(inst, add_op, sub_op, result_bits) && final(accounts)@[0].data@
                    == #[trigger] store_record(
                    result_bits,
                    init_data(ctx0.is_owned_by_program, data0),
                ))
        }),
{
    if accounts.len() == 0 {
        return Err(CalcError::MissingAccount);
    }
    let ghost accounts0: Seq<Account> = accounts@;
    let mut account = accounts.remove(0);
    let ghost ctx0 = account.context;
    let ghost data0: Seq<u8> = account.data@;

    // First-use initialization: write a fresh zero-valued record before
    // reading anything.
    if !account.context.is_owned_by_program {
        let zero = CalculatorAccount { result_bits: 0 };
        let init_result = encode(&zero, &mut account.data);
        match init_result {
            Ok(_) => {},
            Err(e) => {
                let ghost item = account;
                accounts.insert(0, account);
                proof {
                    lemma_put_back(accounts0, accounts@, item);
                }
                return Err(e);
            },
        }
    }
    // Decode the current record.  The transition does not consume it — the
    // operations overwrite rather than accumulate — but a buffer no record
    // can be read from fails the invocation here.
    let decoded = decode(account.data.as_slice());
    match decoded {
        Ok(_) => {},
        Err(e) => {
            let ghost item = account;
            accounts.insert(0, account);
            proof {
                lemma_put_back(accounts0, accounts@, item);
            }
            return Err(e);
        },
    }
    // Parse the instruction payload.
    let parsed = parse(instruction_data);
    let inst = match parsed {
        Ok(inst) => inst,
        Err(e) => {
            let ghost item = account;
            accounts.insert(0, account);
            proof {
                lemma_put_back(accounts0, accounts@, item);
            }
            return Err(e);
        },
    };
    // Run the transition on the two fresh operands.
    let result_bits = match inst {
        Instruction::Add { num1_bits, num2_bits } => add_op(num1_bits, num2_bits),
        Instruction::Subtract { num1_bits, num2_bits } => sub_op(num1_bits, num2_bits),
    };
    // Persist the new record over the old one.
    let new_record = CalculatorAccount { result_bits };
    let persisted = encode(&new_record, &mut account.data);
    proof {
        assert(persisted == Ok::<(), CalcError>(()));
        assert(account.data@ == store_record(
            result_bits,
            init_data(ctx0.is_owned_by_program, data0),
        ));
        assert(transition_ensures(inst, add_op, sub_op, result_bits));
    }
    let ghost item = account;
    accounts.insert(0, account);
    proof {
        lemma_put_back(accounts0, accounts@, item);
    }
    Ok(())
}

/// Overwrite semantics: the prior record never enters the transition.  On
/// any two accounts large enough to hold a record — whatever records they
/// hold and whether or not either is owned yet — the same payload prepares
/// the same instruction, so the same operand bit patterns reach the
/// transition; and a persisted result overwrites the record bytes
/// identically on both.
pub proof fn lemma_overwrite_semantics(
    owned1: bool,
    data1: Seq<u8>,
    owned2: bool,
    data2: Seq<u8>,
    payload: Seq<u8>,
)
    requires
        data1.len() >= 8,
        data2.len() >= 8,
    ensures
        prepare_spec(owned1, data1, payload) == prepare_spec(owned2, data2, payload),
        prepare_spec(owned1, data1, payload) == parse_spec(payload),
        forall|result_bits: u64|
            (#[trigger] store_record(result_bits, init_data(owned1, data1))).take(8)
                == store_record(result_bits, init_data(owned2, data2)).take(8),
{
    assert forall|result_bits: u64|
        (#[trigger] store_record(result_bits, init_data(owned1, data1))).take(8) == store_record(
            result_bits,
            init_data(owned2, data2),
        ).take(8) by {
        assert(store_record(result_bits, init_data(owned1, data1)).take(8)
            =~= crate::codec::le_bytes_of(result_bits));
        assert(store_record(result_bits, init_data(owned2, data2)).take(8)
            =~= crate::codec::le_bytes_of(result_bits));
    }
}

/// Putting the processed account back where it was taken from leaves every
/// other account as it was.
proof fn lemma_put_back(before: Seq<Account>, after: Seq<Account>, item: Account)
    requires
        before.len() > 0,
        after == before.remove(0).insert(0, item),
    ensures
        after.len() == before.len(),
        after.skip(1) == before.skip(1),
        after[0] == item,
{
    assert(after.skip(1) =~= before.skip(1));
}

} // verus!

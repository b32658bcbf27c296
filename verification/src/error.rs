//! The failure reasons an invocation can surface to the host.

use vstd::prelude::*;

verus! {

/// Every way an invocation can fail.  All errors are terminal for the
/// invocation: none is retried internally, and none is silently swallowed.
#[derive(Clone, Copy, Debug, PartialEq, Eq, Structural)]
pub enum CalcError {
    /// The host-supplied account list was empty.
    MissingAccount,
    /// The account buffer is too short to hold a record, so no record can be
    /// decoded from it.
    MalformedState,
    /// The encode target is too short to receive a record.
    BufferTooSmall,
    /// The instruction payload was empty.
    EmptyInstruction,
    /// The opcode requires two operands but the payload is too short to hold
    /// them.
    TruncatedOperands,
    /// The opcode byte is not in the recognized set.
    UnknownOpcode,
}

} // verus!

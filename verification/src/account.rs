//! The host-facing model of an account: the facts the host supplies about
//! it, and its raw storage buffer.
//!
//! The host environment resolves accounts, enforces ownership and signing,
//! and commits or rolls back buffers; this library only consumes what the
//! host reports, passed explicitly as a capability value per call.

use vstd::prelude::*;

verus! {

/// A 32-byte key under which the host knows a program or an account.
#[derive(Clone, Copy, Debug, PartialEq, Eq)]
pub struct Pubkey {
    pub bytes: [u8; 32],
}

/// The host-owned facts about the target account that the dispatcher
/// consults, passed in explicitly rather than read from ambient state.
#[derive(Clone, Copy, Debug)]
pub struct AccountContext {
    /// The key the host knows the account under.
    pub identity: Pubkey,
    /// Whether the host reports the account as already owned by this
    /// program, that is, already carrying this program's record schema.
    /// When it does not, the dispatcher writes a zero-valued record into
    /// the buffer before reading it.
    pub is_owned_by_program: bool,
    /// Whether the host grants write access to the buffer.
    pub is_writable: bool,
}

/// One entry of the host-supplied account list: the host's facts about the
/// account together with its raw storage buffer, the sole persistence
/// medium for one record.
#[derive(Debug)]
pub struct Account {
    /// What the host reports about this account.
    pub context: AccountContext,
    /// The raw storage buffer, mutated in place and never reallocated.
    pub data: Vec<u8>,
}

} // verus!

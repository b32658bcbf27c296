//! The counter variant: the architecturally identical, simpler sibling of
//! the calculator.  Its account keeps an authority key and an unsigned
//! count, mutated by zero-payload create, increment and decrement calls.
//!
//! The host enforces that the caller signed and that the caller's key
//! matches the stored authority before these run; that access control is a
//! collaborator concern and is not replicated here.

use vstd::prelude::*;

use crate::account::Pubkey;
use crate::error::CalcError;

verus! {

/// The counter account: an authority key and a count.
#[derive(Clone, Copy, Debug)]
pub struct Counter {
    /// The key whose holder may mutate the count.
    pub authority: Pubkey,
    /// The current count.
    pub count: u64,
}

/// The accounts the create call works on: the counter account being
/// initialized and the key of the signer paying for it, who becomes its
/// authority.
#[derive(Clone, Copy, Debug)]
pub struct Create {
    pub counter: Counter,
    pub authority: Pubkey,
}

/// The accounts the increment call works on: the counter account and the
/// key of the signer, which the host has already matched against the
/// stored authority.
#[derive(Clone, Copy, Debug)]
pub struct Increment {
    pub counter: Counter,
    pub authority: Pubkey,
}

/// The accounts the decrement call works on, resolved as for increment.
#[derive(Clone, Copy, Debug)]
pub struct Decrement {
    pub counter: Counter,
    pub authority: Pubkey,
}

/// Initializes the counter account: the signer becomes its authority and
/// the count starts at zero.  Never fails.
pub fn create(ctx: &mut Create) -> (r: Result<(), CalcError>)
    ensures
        r == Ok::<(), CalcError>(()),
        final(ctx).counter.authority == old(ctx).authority,
        final(ctx).counter.count == 0,
        final(ctx).authority == old(ctx).authority,
{
    ctx.counter.authority = ctx.authority;
    ctx.counter.count = 0;
    Ok(())
}

/// Increases the count by one.  Never fails; a count at the type's maximum
/// is excluded, since the count cannot grow past it.
pub fn increment(ctx: &mut Increment) -> (r: Result<(), CalcError>)
    requires
        old(ctx).counter.count < u64::MAX,
    ensures
        r == Ok::<(), CalcError>(()),
        final(ctx).counter.count == old(ctx).counter.count + 1,
        final(ctx).counter.authority == old(ctx).counter.authority,
        final(ctx).authority == old(ctx).authority,
{
    ctx.counter.count = ctx.counter.count + 1;
    Ok(())
}

/// Decreases the count by one.  Never fails; a count of zero is excluded,
/// since the count cannot go below it.
pub fn decrement(ctx: &mut Decrement) -> (r: Result<(), CalcError>)
    requires
        old(ctx).counter.count > 0,
    ensures
        r == Ok::<(), CalcError>(()),
        final(ctx).counter.count == old(ctx).counter.count - 1,
        final(ctx).counter.authority == old(ctx).counter.authority,
        final(ctx).authority == old(ctx).authority,
{
    ctx.counter.count = ctx.counter.count - 1;
    Ok(())
}

} // verus!

//! A minimal on-chain ledger mutation handler.
//!
//! Given an account storage buffer and a raw instruction byte stream, the
//! library decodes the persisted record, selects an operation by a leading
//! opcode byte, applies the numeric transform, and re-serializes the result
//! back into the buffer.  A simpler counter variant keeps an authority key
//! and a count mutated by zero-payload increment and decrement calls.
//!
//! The stored numeric value is a 64-bit IEEE-754 double; throughout the
//! library it is carried as its bit pattern (a `u64`), so that round-trip
//! correctness can be stated bit for bit, NaN included.

pub mod account;
pub mod codec;
pub mod counter;
pub mod dispatch;
pub mod error;
pub mod instruction;

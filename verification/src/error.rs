//! The typed failures an invocation can end in.

use vstd::prelude::*;

verus! {

/// Every failure the manager or one of the consumed services reports.
///
/// The first three arise in the router itself; the rest are propagated
/// unchanged from the allocation and resource-management services.
#[derive(Clone, Copy, Debug, PartialEq, Eq, Structural)]
pub enum LifecycleError {
    /// The supplied derived-address account does not equal the recomputed
    /// derivation, or an authorization proof did not check out.
    AuthorityMismatch,
    /// The opcode byte is missing or names no defined instruction.
    UnsupportedInstruction,
    /// Fewer account references were supplied than the opcode requires.
    MissingAccount,
    /// The allocation target already holds a live account.
    AccountAlreadyExists,
    /// The account is not in the state the resource service requires.
    InvalidAccountState,
    /// The funder cannot cover the requested funding, or a balance move
    /// would not fit the receiving account.
    InsufficientFunds,
    /// A required transaction signature is absent.
    MissingSignature,
}

} // verus!

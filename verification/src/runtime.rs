//! Runtime glue: the rule for dust removed from accounts, and the marker type
//! for the native runtime.
use vstd::prelude::*;

verus! {

/// A deposit of this amount into the treasury's account, for the runtime to
/// make.
#[derive(Clone, Copy, Debug, PartialEq, Eq)]
pub struct TreasuryDeposit {
    pub amount: u128,
}

/// The rule for dust removed from accounts.
pub struct HandleDustRemoval;

impl HandleDustRemoval {
    /// Where a non-zero amount of dust goes: the whole amount, as one deposit
    /// into the treasury. This decides the deposit; it does not make it.
    pub fn on_nonzero_unbalanced(amount: u128) -> (r: TreasuryDeposit)
        ensures
            r.amount == amount,
    {
        TreasuryDeposit { amount }
    }
}

/// A marker type for the native runtime; it carries no data and this library
/// gives it no behaviour (the dispatch into the runtime is the node's).
pub struct ExecutorDispatch;

} // verus!

use vstd::prelude::*;

verus! {

/// Why an operation on the ledger was rejected.
///
/// A rejected operation leaves every record it was given exactly as it was.
#[derive(Clone, Copy, Debug, PartialEq, Eq)]
pub enum ErrorCode {
    /// A quantity argument was zero.
    InvalidAmount,
    /// A withdrawal asked for more than the position holds.
    InsufficientStake,
    /// A locked position was withdrawn from, or closed, before its maturity.
    StillInLockPeriod,
    /// An arithmetic step left the range of the integer that holds its result.
    MathOverflow,
    /// A claim was made while the accrued reward is zero.
    NoRewardsAvailable,
}

} // verus!

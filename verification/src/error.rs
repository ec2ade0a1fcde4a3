//! The reasons for which an operation is rejected.

use vstd::prelude::*;

verus! {

/// Why an operation was rejected. A rejected operation changes nothing.
#[derive(Clone, Copy, Debug, PartialEq, Eq, Structural)]
pub enum TokenError {
    /// The caller is not the owner that the operation is reserved for.
    Unauthorized,
    /// The operation would take more from an account than it holds.
    InsufficientBalance,
    /// A delegated transfer asks for more than the remaining allowance.
    AllowanceExceeded,
    /// A mint would raise the total supply above the maximum supply.
    SupplyCapExceeded,
    /// A burn was attempted on a ledger that does not allow burning.
    BurningDisabled,
    /// An addition would leave the range of the amount type.
    ArithmeticOverflow,
    /// A call into another ledger reported failure.
    ExternalCallFailed,
    /// A transfer of native value reported failure.
    TransferFailed,
}

} // verus!

use vstd::prelude::*;

verus! {

/// Why a token-info or configuration value was refused.
#[derive(Clone, Copy, Debug, PartialEq, Eq, Structural)]
pub enum ValidationIssue {
    /// The admin list would be empty.
    EmptyAdmins,
    /// The token name is not 3 to 50 bytes long.
    NameFormat,
    /// The ticker symbol is not 3 to 12 characters of `[a-zA-Z-]`.
    SymbolFormat,
    /// More than 18 decimals.
    Decimals,
    /// The initial balances add up to more than the mint cap.
    InitialSupplyOverCap,
}

/// Every way an operation on the ledger can fail. A failed operation leaves
/// the ledger as it was.
#[derive(Debug, PartialEq, Eq)]
pub enum ContractError {
    Unauthorized,
    InsufficientFunds,
    InsufficientAllowance,
    NoAllowance,
    Expired,
    CapExceeded,
    CannotSetOwnAccount,
    InvalidAddress { address: String },
    Validation { issue: ValidationIssue },
    CannotMigrate { previous_contract: String },
    ArithmeticOverflow,
    ArithmeticUnderflow,
}

} // verus!

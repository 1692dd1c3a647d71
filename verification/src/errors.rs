//! The error taxonomy of the engine and of the sale-asset policy module.
//!
//! Every failure is a synchronous, non-retryable validation failure naming the
//! specific violated rule; no operation reports a generic catch-all.

use vstd::prelude::*;

verus! {

/// An error of the presale engine. Each operation's contract states exactly
/// which variant comes back on which inputs.
#[derive(Debug, Clone, Copy, PartialEq, Eq, Structural)]
pub enum PresaleError {
    Unauthorized,
    SalePaused,
    AlreadyPaused,
    NotPaused,
    SaleNotStarted,
    SaleEnded,
    SaleNotEnded,
    SaleInProgress,
    InvalidConfiguration,
    InvalidCapConfiguration,
    InvalidSchedule,
    InvalidPriceConfiguration,
    InvalidTgeBps,
    MathOverflow,
    WalletMinNotReached,
    WalletCapExceeded,
    HardCapExceeded,
    InvalidAmount,
    NotWhitelisted,
    WhitelistDisabled,
    CooldownActive,
    SoftCapMet,
    SoftCapNotMet,
    NothingToRefund,
    AlreadyRefunded,
    NothingToClaim,
    InsufficientVaultBalance,
    IncorrectPayMint,
    InvalidOwner,
    InvalidStateAccount,
    InvalidWhitelistAccount,
    MissingPayAccount,
    MissingGuard,
    InvalidVaultAccount,
    InsufficientEscrowBalance,
    SlippageExceeded,
}

/// An error of the sale-asset access-control module.
#[derive(Debug, Clone, Copy, PartialEq, Eq, Structural)]
pub enum TokenError {
    UnauthorizedAccess,
    TokenNotInitialized,
    InvalidAmount,
    InsufficientBalance,
    TradingDisabled,
    SenderBlacklisted,
    RecipientBlacklisted,
    SenderNotWhitelisted,
    RecipientNotWhitelisted,
    AllocationExceeded,
}

} // verus!

use vstd::prelude::*;

verus! {

/// Every way an operation of the exchange can be refused. A failing check is
/// terminal: the operation returns one of these and leaves all state unchanged.
#[derive(Clone, Copy, Debug, PartialEq, Eq, Structural)]
pub enum ErrorCode {
    /// Token name longer than 32 characters.
    NameTooLong,
    /// Token name is empty.
    NameTooShort,
    /// Token symbol longer than 10 characters.
    SymbolTooLong,
    /// Token symbol is empty.
    SymbolTooShort,
    /// Metadata URI longer than 200 characters.
    UriTooLong,
    /// An initial virtual reserve of zero.
    InvalidReserves,
    /// The content hash is all zeros.
    InvalidImageHash,
    /// Trading on a launch that has already graduated.
    AlreadyGraduated,
    /// Migrating a launch that has not graduated yet.
    NotGraduated,
    /// Migrating a launch a second time.
    AlreadyMigrated,
    /// The quoted output fell below the caller's minimum.
    SlippageExceeded,
    /// A duplicate (creator, symbol) launch; signalled by the host's launch
    /// table, never by this engine itself.
    DuplicateMeme,
    /// A zero trade amount, or a curve quote of zero output.
    InvalidAmount,
    /// A fixed-width addition or multiplication would exceed its width.
    Overflow,
    /// A protocol fee above 10%.
    FeeTooHigh,
    /// A slippage tolerance above 50%.
    SlippageTooHigh,
    /// The buy would push the buyer's balance over the wallet cap.
    MaxWalletExceeded,
    /// A second trade within the one-second cooldown.
    TradeTooFast,
    /// A trade within sixty seconds of the launch's creation.
    LaunchCooldownActive,
    /// The caller is not the launch's creator.
    Unauthorized,
    /// Fees exceed the traded amount, an escrow below the computed cost, or a
    /// reserve or supply counter that a withdrawal would take below zero.
    InsufficientFunds,
    /// A high-priority trade without the derived verified-identity credential.
    UnverifiedWallet,
    /// A first-block buy above the circuit-breaker threshold; the host must
    /// freeze the buyer's token holding on seeing this error.
    LargeBuyDetected,
}

} // verus!

use vstd::prelude::*;

verus! {

/// Every way an operation of the protocol can fail. Each kind names one cause.
#[derive(Clone, Copy, Debug, PartialEq, Eq, Structural)]
pub enum Error {
    AlreadyInitialized,
    NotAdmin,
    ContractPaused,
    InvalidFaction,
    FactionNotSelected,
    FactionAlreadyLocked,
    PlayerNotFound,
    PlayersNotDistinct,
    InvalidAmount,
    InsufficientBalance,
    InsufficientFactionPoints,
    OverflowError,
    GameNotWhitelisted,
    SessionNotFound,
    SessionAlreadyExists,
    InvalidSessionState,
    InvalidGameOutcome,
    ProofVerificationFailed,
    EpochNotFinalized,
    EpochAlreadyFinalized,
    EpochNotReady,
    NotWinningFaction,
    RewardAlreadyClaimed,
    NoRewardsAvailable,
    FeeVaultError,
    SwapError,
}

} // verus!

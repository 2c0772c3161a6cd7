use vstd::prelude::*;

verus! {

/// Every way a ledger operation or a weight query can fail.
#[derive(Clone, Copy, Debug, PartialEq, Eq, Structural)]
pub enum ErrorCode {
    /// Both scaled factors of a voting mint are zero.
    InvalidRate,
    RatesFull,
    ExchangeRateEntryNotFound,
    DepositEntryNotFound,
    /// The target deposit slot is already in use.
    DepositEntryFull,
    /// Tokens are still deposited where none may be.
    VotingTokenNonZero,
    DepositEntryIndexOutOfBounds,
    DepositEntryIndexAlreadInUse,
    /// The deposit slot at the index is not in use.
    UnusedDepositEntryIndex,
    /// Fewer tokens have vested than the operation needs.
    InsufficientVestedTokens,
    UnableToConvert,
    /// A lockup would be shortened, or a periodic lockup has no periods.
    InvalidLockupPeriod,
    InvalidEndTs,
    /// The operation is forbidden on a clawback-enabled deposit.
    InvalidDays,
    RateAtIndexAlreadySet,
    InvalidIndex,
    InvalidDecimals,
    InvalidToDepositAndWithdrawInOneSlot,
    ForbiddenCpi,
    /// Deposits of two different voting mints were mixed.
    InvalidMint,
    DebugInstruction,
    /// The deposit was not created with clawback enabled.
    ClawbackNotAllowedOnDeposit,
    /// The deposit's lockup has not ended yet.
    DepositStillLocked,
    /// The signer is not the required authority.
    InvalidAuthority,
    InvalidTokenOwnerRecord,
    InvalidRealmAuthority,
    /// A vote weight, or a sum of them, does not fit in a `u64`.
    VoterWeightOverflow,
    /// A re-lock would leave fewer tokens locked than are locked now.
    MustKeepTokensLocked,
    /// A lockup would be replaced by a less strict kind.
    InvalidLockupKind,
    /// A deposit slot index is past the end of the voter's slots.
    OutOfBoundsDepositEntryIndex,
    /// More tokens were asked for than the deposit holds.
    InsufficientDepositedTokens,
    /// The later timestamp of a query lies before the earlier one.
    InvalidTimestampArguments,
    /// A vault still holds tokens.
    VaultTokenNonZero,
    /// A voting-mint slot index is past the end of the registrar's slots.
    OutOfBoundsVotingMintConfigIndex,
    /// The voting-mint slot is already configured.
    VotingMintConfigIndexAlreadyInUse,
    /// No supply was given for a configured voting mint.
    VotingMintNotFound,
    /// The number of accounts handed in does not match the deposits.
    InvalidAccountCount,
    /// A lockup date or a deposited amount leaves its integer range.
    ArithmeticOverflow,
}

} // verus!

use vstd::prelude::*;

verus! {

/// Every way in which an operation of the adapter can fail.
#[derive(Clone, Copy, Debug, PartialEq, Eq, Structural)]
pub enum ContractError {
    /// A pair, or a deposit, does not hold exactly two assets.
    WrongAssetCount,
    /// The two assets of a new pair are the same.
    DoublingAssets,
    /// The caller may not do this, or a reply came a second time.
    Unauthorized,
    /// A reply with an unexpected id, a failed result or no payload.
    FailedToParseReply,
    /// The payload of the LP token's instantiation reply cannot be decoded.
    InvalidInstantiateResponse,
    /// The factory knows no backend pool for the pair.
    UnderlyingPoolNotFound,
    /// The backend pool or the LP token is not known yet.
    NotInitialized,
    /// Both deposits of a liquidity provision are zero.
    InvalidZeroAmount,
    /// An asset does not belong to the pair.
    AssetMismatch,
    /// The coins sent do not match the native amounts that were declared.
    NativeBalanceMismatch,
    /// Auto-staking was asked for, but the factory names no generator.
    AutoStakeError,
    /// Withdrawing liquidity in chosen proportions is not supported.
    ImbalancedWithdrawDisabled,
    /// A token swap must come through the token's own send hook.
    Cw20DirectSwap,
    /// The message is not supported by this adapter.
    NonSupported,
    /// The query is not implemented by this adapter.
    NotImplemented,
    /// A backend simulation came back without the coin it must hold.
    EmptySimulation,
    /// An amount derived from a backend answer does not fit in 128 bits.
    Overflow,
    /// The backend's answer is not of the kind that the call asked for.
    UnexpectedBackendAnswer,
    /// The stored contract name differs, or the version is the same.
    MigrationError,
}

} // verus!

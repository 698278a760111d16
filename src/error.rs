use vstd::prelude::*;

verus! {

/// Every way an initialization or a swap can be refused.
#[derive(Clone, Copy, Debug, PartialEq, Eq, Structural)]
pub enum SwapError {
    /// The pool record is already initialized.
    AlreadyInUse,
    /// The given authority is not the pool's derived authority.
    InvalidProgramAddress,
    /// A reserve, or the LP mint, is not controlled by the pool authority.
    InvalidOwner,
    /// The fee account and the initial LP destination are both owned by the authority.
    InvalidOutputOwner,
    /// Both reserves hold the same asset.
    RepeatedMint,
    /// A reserve has a delegate.
    InvalidDelegate,
    /// A reserve has a close authority.
    InvalidCloseAuthority,
    /// The LP mint already has a nonzero supply.
    InvalidSupply,
    /// The LP mint has a freeze authority.
    InvalidFreezeAuthority,
    /// An account does not belong to the pool's LP mint.
    IncorrectPoolMint,
    /// The fee account is not the pool's fee account.
    IncorrectFeeAccount,
    /// A reserve account is not one of the pool's reserves.
    IncorrectSwapAccount,
    /// The token program is not the pool's token program.
    IncorrectTokenProgramId,
    /// The pool record is not owned by this program.
    IncorrectProgramId,
    /// Source and destination accounts are the same, or a reserve is the trader's own account.
    InvalidInput,
    /// A fee fraction is out of range.
    InvalidFee,
    /// The curve kind or its parameter is out of range.
    InvalidCurve,
    /// The initial reserves do not suit the curve.
    EmptySupply,
    /// The curve produced no trade: the amount is too small or a reserve would run out.
    ZeroTradingTokens,
    /// The output is below the caller's minimum.
    ExceededSlippage,
    /// A fee or LP conversion overflowed or did not converge.
    FeeCalculationFailure,
    /// An amount does not fit the ledger's 64-bit token amounts.
    ConversionFailure,
}

} // verus!

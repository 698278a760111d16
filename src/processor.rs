use vstd::prelude::*;

use crate::accounts::{
    authority_id, build_curve, build_fees, curve_of_input, fees_of_input, find_program_address,
    opt_key_is, opt_key_matches, opt_view, program_address, Address, Amm, CurveInput, FeesInput,
    MintState, TokenAccountState,
};
use crate::curve::{
    fee_to_pool_tokens_spec, new_pool_supply_spec, swap_spec, SwapCurve, SwapResult,
    TradeDirection, INITIAL_SWAP_POOL_AMOUNT,
};
use crate::error::SwapError;
use crate::fees::CurveFees;

verus! {

/// The accounts that take part in creating a pool.
#[derive(Clone, Copy, Debug)]
pub struct Initialize {
    /// The pool authority, derived from the pool record's address.
    pub authority: Address,
    /// Who creates the pool and pays for it.
    pub initializer: Address,
    /// The address of the pool record.
    pub amm_key: Address,
    /// The pool record, filled in on success.
    pub amm: Amm,
    /// The LP token mint.
    pub pool_mint: MintState,
    /// The pool's reserve of token A.
    pub token_a: TokenAccountState,
    /// The pool's reserve of token B.
    pub token_b: TokenAccountState,
    /// The account that will receive the owner's LP fees.
    pub fee_account: TokenAccountState,
    /// The account that receives the initial LP supply.
    pub destination: TokenAccountState,
    /// The token program.
    pub token_program: Address,
}

/// The first rule that the accounts of an initialization break, checked in
/// a fixed order, or `None` when they keep every rule.
pub open spec fn accounts_error(ctx: Initialize, swap_authority: Seq<u8>) -> Option<SwapError> {
    let authority = ctx.authority@;
    if ctx.amm.is_initialized {
        Some(SwapError::AlreadyInUse)
    } else if authority != swap_authority {
        Some(SwapError::InvalidProgramAddress)
    } else if authority != ctx.token_a.owner@ || authority != ctx.token_b.owner@ {
        Some(SwapError::InvalidOwner)
    } else if authority == ctx.fee_account.owner@ && authority == ctx.destination.owner@ {
        Some(SwapError::InvalidOutputOwner)
    } else if !opt_key_is(ctx.pool_mint.mint_authority, authority) {
        Some(SwapError::InvalidOwner)
    } else if ctx.token_a.mint@ == ctx.token_b.mint@ {
        Some(SwapError::RepeatedMint)
    } else if ctx.token_a.delegate is Some || ctx.token_b.delegate is Some {
        Some(SwapError::InvalidDelegate)
    } else if ctx.token_a.close_authority is Some || ctx.token_b.close_authority is Some {
        Some(SwapError::InvalidCloseAuthority)
    } else if ctx.pool_mint.supply != 0 {
        Some(SwapError::InvalidSupply)
    } else if ctx.pool_mint.freeze_authority is Some {
        Some(SwapError::InvalidFreezeAuthority)
    } else if ctx.pool_mint.key@ != ctx.fee_account.mint@ {
        Some(SwapError::IncorrectPoolMint)
    } else {
        None
    }
}

/// The first rule that the curve and fee configuration break: the curve
/// kind is known, the initial reserves suit the curve, the fees are valid,
/// and the curve parameter is in range.
pub open spec fn config_error(ctx: Initialize, fees_input: FeesInput, curve_input: CurveInput) -> Option<
    SwapError,
> {
    match curve_of_input(curve_input) {
        None => Some(SwapError::InvalidCurve),
        Some(curve) => if !curve.calculator.supply_ok(
            ctx.token_a.amount as int,
            ctx.token_b.amount as int,
        ) {
            Some(SwapError::EmptySupply)
        } else if !fees_of_input(fees_input).valid() {
            Some(SwapError::InvalidFee)
        } else if !curve.calculator.valid_spec() {
            Some(SwapError::InvalidCurve)
        } else {
            None
        },
    }
}

/// The pool record written by a successful initialization.
pub open spec fn initialized_amm(
    ctx: Initialize,
    bump_seed: u8,
    fees_input: FeesInput,
    curve_input: CurveInput,
) -> Amm {
    Amm {
        is_initialized: true,
        bump_seed,
        token_program_id: ctx.token_program,
        token_a_account: ctx.token_a.key,
        token_b_account: ctx.token_b.key,
        pool_mint: ctx.pool_mint.key,
        token_a_mint: ctx.token_a.mint,
        token_b_mint: ctx.token_b.mint,
        pool_fee_account: ctx.fee_account.key,
        fees: fees_input,
        curve: curve_input,
    }
}

/// `after` is `before` with only its pool record replaced by `amm`.
pub open spec fn with_amm(before: Initialize, after: Initialize, amm: Amm) -> bool {
    after == Initialize { amm, ..before }
}

impl Initialize {
    /// Checks the accounts of a new pool against the pool authority.
    pub fn validate_input_accounts(&self, swap_authority: &Address) -> (r: Result<(), SwapError>)
        ensures
            r == (match accounts_error(*self, swap_authority@) {
                Some(e) => Err(e),
                None => Ok(()),
            }),
    {
        if self.amm.is_initialized {
            return Err(SwapError::AlreadyInUse);
        }
        if !self.authority.same_as(swap_authority) {
            return Err(SwapError::InvalidProgramAddress);
        }
        if !self.authority.same_as(&self.token_a.owner) || !self.authority.same_as(
            &self.token_b.owner,
        ) {
            return Err(SwapError::InvalidOwner);
        }
        if self.authority.same_as(&self.fee_account.owner) && self.authority.same_as(
            &self.destination.owner,
        ) {
            return Err(SwapError::InvalidOutputOwner);
        }
        if !opt_key_matches(&self.pool_mint.mint_authority, &self.authority) {
            return Err(SwapError::InvalidOwner);
        }
        if self.token_a.mint.same_as(&self.token_b.mint) {
            return Err(SwapError::RepeatedMint);
        }
        if self.token_a.delegate.is_some() || self.token_b.delegate.is_some() {
            return Err(SwapError::InvalidDelegate);
        }
        if self.token_a.close_authority.is_some() || self.token_b.close_authority.is_some() {
            return Err(SwapError::InvalidCloseAuthority);
        }
        if self.pool_mint.supply != 0 {
            return Err(SwapError::InvalidSupply);
        }
        if self.pool_mint.freeze_authority.is_some() {
            return Err(SwapError::InvalidFreezeAuthority);
        }
        if !self.pool_mint.key.same_as(&self.fee_account.mint) {
            return Err(SwapError::IncorrectPoolMint);
        }
        Ok(())
    }

    /// Builds the curve and checks it, the initial reserves and the fees.
    pub fn validate_amm_fees_and_curve(
        &self,
        fees_input: &FeesInput,
        curve_input: &CurveInput,
    ) -> (r: Result<SwapCurve, SwapError>)
        ensures
            match config_error(*self, *fees_input, *curve_input) {
                Some(e) => r == Err::<SwapCurve, SwapError>(e),
                None => r == Ok::<SwapCurve, SwapError>(curve_of_input(*curve_input)->0),
            },
    {
        let curve = build_curve(curve_input)?;
        curve.validate_supply(self.token_a.amount, self.token_b.amount)?;
        let fees = build_fees(fees_input)?;
        fees.validate()?;
        curve.validate()?;
        Ok(curve)
    }

    /// Fills in the pool record and returns the LP supply to mint to the
    /// initializer's destination account.
    pub fn mint_create_state_account(
        &mut self,
        bump_seed: u8,
        curve_input: CurveInput,
        fees_input: FeesInput,
        curve: &SwapCurve,
    ) -> (r: u64)
        ensures
            r == new_pool_supply_spec(*curve),
            with_amm(*old(self), *final(self), initialized_amm(*old(self), bump_seed, fees_input, curve_input)),
    {
        let initial_amount = curve.new_pool_supply();
        let amm = Amm {
            is_initialized: true,
            bump_seed,
            token_program_id: self.token_program,
            token_a_account: self.token_a.key,
            token_b_account: self.token_b.key,
            pool_mint: self.pool_mint.key,
            token_a_mint: self.token_a.mint,
            token_b_mint: self.token_b.mint,
            pool_fee_account: self.fee_account.key,
            fees: fees_input,
            curve: curve_input,
        };
        self.amm = amm;
        initial_amount as u64
    }
}

/// What creating a pool returns once its authority `key` is known: the
/// first broken account rule, else the first broken configuration rule,
/// else the LP supply to mint to the initializer.
pub open spec fn init_outcome(
    ctx: Initialize,
    key: Seq<u8>,
    fees_input: FeesInput,
    curve_input: CurveInput,
) -> Result<u64, SwapError> {
    match accounts_error(ctx, key) {
        Some(e) => Err(e),
        None => match config_error(ctx, fees_input, curve_input) {
            Some(e) => Err(e),
            None => Ok(INITIAL_SWAP_POOL_AMOUNT as u64),
        },
    }
}

/// `key` is the program-derived address of `seed` under `program` for
/// `bump`, and no higher bump seed yields one.
pub open spec fn is_first_address(seed: Seq<u8>, program: Seq<u8>, bump: u8, key: Seq<u8>) -> bool {
    &&& 1 <= bump
    &&& program_address(seed, bump, program) == Some(key)
    &&& forall|b: u8| bump < b ==> program_address(seed, b, program) is None
}

/// Creates a pool once its authority is known: checks the accounts and the
/// configuration, writes the pool record, and returns the LP supply to mint
/// to the initializer. On an error nothing changes.
pub fn initialize_with_authority(
    ctx: &mut Initialize,
    swap_authority: &Address,
    bump_seed: u8,
    fees_input: FeesInput,
    curve_input: CurveInput,
) -> (r: Result<u64, SwapError>)
    ensures
        r == init_outcome(*old(ctx), swap_authority@, fees_input, curve_input),
        r is Err ==> *final(ctx) == *old(ctx),
        r is Ok ==> with_amm(
            *old(ctx),
            *final(ctx),
            initialized_amm(*old(ctx), bump_seed, fees_input, curve_input),
        ),
{
    ctx.validate_input_accounts(swap_authority)?;
    let curve = ctx.validate_amm_fees_and_curve(&fees_input, &curve_input)?;
    let minted = ctx.mint_create_state_account(bump_seed, curve_input, fees_input, &curve);
    Ok(minted)
}

/// Creates a pool: derives its authority from the pool record's address
/// under `program_id` (the first address found from the highest bump seed
/// down), then proceeds as `initialize_with_authority`. A pool whose
/// reserves hold the same asset, or whose LP mint already has a supply, is
/// always refused.
pub fn initialize(
    ctx: &mut Initialize,
    program_id: &Address,
    fees_input: FeesInput,
    curve_input: CurveInput,
) -> (r: Result<u64, SwapError>)
    ensures
        forall|bump: u8, key: Seq<u8>| #[trigger]
            is_first_address(old(ctx).amm_key@, program_id@, bump, key) ==> {
                &&& r == init_outcome(*old(ctx), key, fees_input, curve_input)
                &&& r is Ok ==> with_amm(
                    *old(ctx),
                    *final(ctx),
                    initialized_amm(*old(ctx), bump, fees_input, curve_input),
                )
            },
        (forall|b: u8| 1 <= b ==> program_address(old(ctx).amm_key@, b, program_id@) is None) ==> r
            == Err::<u64, SwapError>(SwapError::InvalidProgramAddress),
        r is Err ==> *final(ctx) == *old(ctx),
        old(ctx).token_a.mint@ == old(ctx).token_b.mint@ ==> r is Err,
        old(ctx).pool_mint.supply != 0 ==> r is Err,
{
    let amm_key = ctx.amm_key;
    match find_program_address(&amm_key, program_id) {
        None => Err(SwapError::InvalidProgramAddress),
        Some((swap_authority, bump_seed)) => {
            let r = initialize_with_authority(
                ctx,
                &swap_authority,
                bump_seed,
                fees_input,
                curve_input,
            );
            proof {
                assert forall|bump: u8, key: Seq<u8>| #[trigger]
                    is_first_address(old(ctx).amm_key@, program_id@, bump, key) implies bump
                    == bump_seed && key == swap_authority@ by {
                    if bump < bump_seed {
                        assert(program_address(old(ctx).amm_key@, bump_seed, program_id@) is None);
                    } else if bump_seed < bump {
                        assert(program_address(old(ctx).amm_key@, bump, program_id@) is None);
                    }
                }
            }
            r
        },
    }
}

/// The accounts that take part in a swap.
#[derive(Clone, Copy, Debug)]
pub struct Swap {
    /// The pool authority.
    pub authority: Address,
    /// The address of the pool record.
    pub amm_key: Address,
    /// The program that owns the pool record.
    pub amm_owner: Address,
    /// The pool record.
    pub amm: Amm,
    /// The trader's signing authority.
    pub user_transfer_authority: Address,
    /// The trader's account the deposit comes from.
    pub source_info: Address,
    /// The trader's account the output goes to.
    pub destination_info: Address,
    /// The pool reserve that receives the deposit.
    pub swap_source: TokenAccountState,
    /// The pool reserve that pays out.
    pub swap_destination: TokenAccountState,
    /// The LP token mint.
    pub pool_mint: MintState,
    /// The account that receives the owner's LP fees.
    pub fee_account: TokenAccountState,
    /// The token program.
    pub token_program: Address,
    /// The referrer's LP token account, if the trader names one.
    pub host_fee_account: Option<TokenAccountState>,
}

/// The transfers and mints a successful swap asks of the ledger.
#[derive(Clone, Copy, Debug, PartialEq, Eq, Structural)]
pub struct SwapSettlement {
    /// Which reserve receives the deposit.
    pub direction: TradeDirection,
    /// Moved from the trader to the source reserve.
    pub source_amount: u64,
    /// Moved from the destination reserve to the trader.
    pub destination_amount: u64,
    /// LP tokens minted to the pool's fee account.
    pub owner_fee_lp: u64,
    /// LP tokens minted to the referrer.
    pub host_fee_lp: u64,
}

/// How an owner fee in LP tokens is shared between the owner and a referrer.
#[derive(Clone, Copy, Debug, PartialEq, Eq, Structural)]
pub struct FeeSplit {
    pub owner_fee_lp: u128,
    pub host_fee_lp: u128,
}

/// The referrer's share of `total` (none without a referrer) and the rest
/// for the owner; `None` when the referrer's share overflows or exceeds
/// `total`.
pub open spec fn split_spec(fees: CurveFees, total: int, has_host: bool) -> Option<FeeSplit> {
    if !has_host {
        Some(FeeSplit { owner_fee_lp: total as u128, host_fee_lp: 0 })
    } else {
        match fees.host_fee_spec(total) {
            None => None,
            Some(host) => if host > total {
                None
            } else {
                Some(FeeSplit { owner_fee_lp: (total - host) as u128, host_fee_lp: host as u128 })
            },
        }
    }
}

/// Shares an owner fee of `total` LP tokens between the owner and, when
/// there is one, the referrer. The two shares always add up to `total`.
pub fn split_owner_fee(fees: &CurveFees, total: u128, has_host: bool) -> (r: Option<FeeSplit>)
    ensures
        r == split_spec(*fees, total as int, has_host),
        r matches Some(s) ==> s.owner_fee_lp + s.host_fee_lp == total,
{
    if !has_host {
        return Some(FeeSplit { owner_fee_lp: total, host_fee_lp: 0 });
    }
    let host = fees.host_fee(total)?;
    if host > total {
        return None;
    }
    Some(FeeSplit { owner_fee_lp: total - host, host_fee_lp: host })
}

/// The direction of a swap: from A to B when the source reserve is the
/// pool's A reserve.
pub open spec fn direction_of(s: Swap) -> TradeDirection {
    if s.swap_source.key@ == s.amm.token_a_account@ {
        TradeDirection::AtoB
    } else {
        TradeDirection::BtoA
    }
}

/// The reserves of A and B after a swap.
pub open spec fn reserves_after(res: SwapResult, direction: TradeDirection) -> (u128, u128) {
    match direction {
        TradeDirection::AtoB => (res.new_swap_source_amount, res.new_swap_destination_amount),
        TradeDirection::BtoA => (res.new_swap_destination_amount, res.new_swap_source_amount),
    }
}

/// What a swap settles to once the owner fee is known as `total` LP tokens.
pub open spec fn settle_spec(
    s: Swap,
    fees: CurveFees,
    res: SwapResult,
    direction: TradeDirection,
    total: int,
) -> Result<SwapSettlement, SwapError> {
    let base = SwapSettlement {
        direction,
        source_amount: res.source_amount_swapped as u64,
        destination_amount: res.destination_amount_swapped as u64,
        owner_fee_lp: 0,
        host_fee_lp: 0,
    };
    if total == 0 {
        Ok(base)
    } else if s.host_fee_account matches Some(h) && h.mint@ != s.pool_mint.key@ {
        Err(SwapError::IncorrectPoolMint)
    } else {
        match split_spec(fees, total, s.host_fee_account is Some) {
            None => Err(SwapError::FeeCalculationFailure),
            Some(split) => if split.owner_fee_lp > u64::MAX || split.host_fee_lp > u64::MAX {
                Err(SwapError::ConversionFailure)
            } else {
                Ok(
                    SwapSettlement {
                        owner_fee_lp: split.owner_fee_lp as u64,
                        host_fee_lp: split.host_fee_lp as u64,
                        ..base
                    },
                )
            },
        }
    }
}

/// The outcome of a swap of `amount_in` with a floor of `minimum_amount_out`
/// on the output, against accounts already checked.
pub open spec fn swap_outcome(s: Swap, amount_in: u64, minimum_amount_out: u64) -> Result<
    SwapSettlement,
    SwapError,
> {
    match curve_of_input(s.amm.curve) {
        None => Err(SwapError::InvalidCurve),
        Some(curve) => {
            let fees = fees_of_input(s.amm.fees);
            let direction = direction_of(s);
            match swap_spec(
                curve.calculator,
                amount_in as int,
                s.swap_source.amount as int,
                s.swap_destination.amount as int,
                direction,
                fees,
            ) {
                None => Err(SwapError::ZeroTradingTokens),
                Some(res) => if res.destination_amount_swapped < minimum_amount_out {
                    Err(SwapError::ExceededSlippage)
                } else {
                    let (a, b) = reserves_after(res, direction);
                    match fee_to_pool_tokens_spec(
                        curve.calculator,
                        res.owner_fee as int,
                        a as int,
                        b as int,
                        s.pool_mint.supply as int,
                        direction,
                        fees,
                    ) {
                        None => Err(SwapError::FeeCalculationFailure),
                        Some(total) => settle_spec(s, fees, res, direction, total),
                    }
                },
            }
        },
    }
}

/// The first rule that the accounts of a swap break, given the pool
/// authority derived for the record (`None` when none can be derived).
pub open spec fn swap_accounts_error(s: Swap, program_id: Seq<u8>, derived: Option<Seq<u8>>) -> Option<
    SwapError,
> {
    let src = s.swap_source.key@;
    let dst = s.swap_destination.key@;
    if s.amm_owner@ != program_id {
        Some(SwapError::IncorrectProgramId)
    } else if derived is None || derived != Some(s.authority@) {
        Some(SwapError::InvalidProgramAddress)
    } else if !(src == s.amm.token_a_account@ || src == s.amm.token_b_account@) {
        Some(SwapError::IncorrectSwapAccount)
    } else if !(dst == s.amm.token_a_account@ || dst == s.amm.token_b_account@) {
        Some(SwapError::IncorrectSwapAccount)
    } else if src == dst {
        Some(SwapError::InvalidInput)
    } else if src == s.source_info@ || dst == s.destination_info@ {
        Some(SwapError::InvalidInput)
    } else if s.pool_mint.key@ != s.amm.pool_mint@ {
        Some(SwapError::IncorrectPoolMint)
    } else if s.fee_account.key@ != s.amm.pool_fee_account@ {
        Some(SwapError::IncorrectFeeAccount)
    } else if s.token_program@ != s.amm.token_program_id@ {
        Some(SwapError::IncorrectTokenProgramId)
    } else {
        None
    }
}

impl Swap {
    /// Checks the accounts of a swap, given the authority derived for the
    /// pool record (`None` when none can be derived).
    pub fn check_accounts(&self, program_id: &Address, derived: &Option<Address>) -> (r: Result<
        (),
        SwapError,
    >)
        ensures
            r == (match swap_accounts_error(*self, program_id@, opt_view(*derived)) {
                Some(e) => Err(e),
                None => Ok(()),
            }),
    {
        if !self.amm_owner.same_as(program_id) {
            return Err(SwapError::IncorrectProgramId);
        }
        if !opt_key_matches(derived, &self.authority) {
            return Err(SwapError::InvalidProgramAddress);
        }
        let src = &self.swap_source.key;
        let dst = &self.swap_destination.key;
        if !(src.same_as(&self.amm.token_a_account) || src.same_as(&self.amm.token_b_account)) {
            return Err(SwapError::IncorrectSwapAccount);
        }
        if !(dst.same_as(&self.amm.token_a_account) || dst.same_as(&self.amm.token_b_account)) {
            return Err(SwapError::IncorrectSwapAccount);
        }
        if src.same_as(dst) {
            return Err(SwapError::InvalidInput);
        }
        if src.same_as(&self.source_info) || dst.same_as(&self.destination_info) {
            return Err(SwapError::InvalidInput);
        }
        if !self.pool_mint.key.same_as(&self.amm.pool_mint) {
            return Err(SwapError::IncorrectPoolMint);
        }
        if !self.fee_account.key.same_as(&self.amm.pool_fee_account) {
            return Err(SwapError::IncorrectFeeAccount);
        }
        if !self.token_program.same_as(&self.amm.token_program_id) {
            return Err(SwapError::IncorrectTokenProgramId);
        }
        Ok(())
    }

    /// Checks the accounts of a swap against the pool record and the pool
    /// authority derived under `program_id`.
    pub fn validate_accounts(&self, program_id: &Address) -> (r: Result<(), SwapError>)
        ensures
            r == (match swap_accounts_error(
                *self,
                program_id@,
                program_address(self.amm_key@, self.amm.bump_seed, program_id@),
            ) {
                Some(e) => Err(e),
                None => Ok(()),
            }),
    {
        let derived = match authority_id(program_id, &self.amm_key, self.amm.bump_seed) {
            Ok(key) => Some(key),
            Err(_) => None,
        };
        self.check_accounts(program_id, &derived)
    }

    /// Prices a swap of `amount_in` and settles its fees; fails with
    /// `ExceededSlippage` when the output falls below `minimum_amount_out`.
    /// Nothing is moved here: the settlement says what the ledger must move.
    pub fn swap(&self, amount_in: u64, minimum_amount_out: u64) -> (r: Result<
        SwapSettlement,
        SwapError,
    >)
        ensures
            r == swap_outcome(*self, amount_in, minimum_amount_out),
            r matches Ok(st) ==> {
                &&& st.source_amount == amount_in
                &&& minimum_amount_out <= st.destination_amount < self.swap_destination.amount
            },
    {
        let direction = if self.swap_source.key.same_as(&self.amm.token_a_account) {
            TradeDirection::AtoB
        } else {
            TradeDirection::BtoA
        };
        let curve = build_curve(&self.amm.curve)?;
        let fees = build_fees(&self.amm.fees)?;
        let result = match curve.swap(
            amount_in as u128,
            self.swap_source.amount as u128,
            self.swap_destination.amount as u128,
            direction,
            &fees,
        ) {
            Some(res) => res,
            None => {
                return Err(SwapError::ZeroTradingTokens);
            },
        };
        if result.destination_amount_swapped < minimum_amount_out as u128 {
            return Err(SwapError::ExceededSlippage);
        }
        let (a, b) = match direction {
            TradeDirection::AtoB => (result.new_swap_source_amount, result.new_swap_destination_amount),
            TradeDirection::BtoA => (result.new_swap_destination_amount, result.new_swap_source_amount),
        };
        let total = match curve.withdraw_single_token_type_exact_out(
            result.owner_fee,
            a,
            b,
            self.pool_mint.supply as u128,
            direction,
            &fees,
        ) {
            Some(t) => t,
            None => {
                return Err(SwapError::FeeCalculationFailure);
            },
        };
        let base = SwapSettlement {
            direction,
            source_amount: result.source_amount_swapped as u64,
            destination_amount: result.destination_amount_swapped as u64,
            owner_fee_lp: 0,
            host_fee_lp: 0,
        };
        if total == 0 {
            return Ok(base);
        }
        let has_host = match &self.host_fee_account {
            Some(host) => {
                if !host.mint.same_as(&self.pool_mint.key) {
                    return Err(SwapError::IncorrectPoolMint);
                }
                true
            },
            None => false,
        };
        let split = match split_owner_fee(&fees, total, has_host) {
            Some(split) => split,
            None => {
                return Err(SwapError::FeeCalculationFailure);
            },
        };
        if split.owner_fee_lp > u64::MAX as u128 || split.host_fee_lp > u64::MAX as u128 {
            return Err(SwapError::ConversionFailure);
        }
        Ok(
            SwapSettlement {
                owner_fee_lp: split.owner_fee_lp as u64,
                host_fee_lp: split.host_fee_lp as u64,
                ..base
            },
        )
    }
}

/// A swap whose output falls below the trader's minimum fails with
/// `ExceededSlippage`, and so yields no settlement: nothing is moved.
pub proof fn lemma_slippage_gate(s: Swap, amount_in: u64, minimum_amount_out: u64)
    requires
        curve_of_input(s.amm.curve) matches Some(curve) && swap_spec(
            curve.calculator,
            amount_in as int,
            s.swap_source.amount as int,
            s.swap_destination.amount as int,
            direction_of(s),
            fees_of_input(s.amm.fees),
        ) matches Some(res) && res.destination_amount_swapped < minimum_amount_out,
    ensures
        swap_outcome(s, amount_in, minimum_amount_out) == Err::<SwapSettlement, SwapError>(
            SwapError::ExceededSlippage,
        ),
{
}

/// Validates the accounts of a swap and settles it. Every failure comes
/// before any settlement exists, so a refused swap moves nothing.
pub fn swap(ctx: &Swap, program_id: &Address, amount_in: u64, minimum_amount_out: u64) -> (r: Result<
    SwapSettlement,
    SwapError,
>)
    ensures
        r == (match swap_accounts_error(
            *ctx,
            program_id@,
            program_address(ctx.amm_key@, ctx.amm.bump_seed, program_id@),
        ) {
            Some(e) => Err(e),
            None => swap_outcome(*ctx, amount_in, minimum_amount_out),
        }),
{
    ctx.validate_accounts(program_id)?;
    ctx.swap(amount_in, minimum_amount_out)
}

} // verus!

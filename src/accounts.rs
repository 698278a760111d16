use vstd::prelude::*;

use crate::curve::{CurveCalculator, SwapCurve};
use crate::error::SwapError;
use crate::fees::CurveFees;

verus! {

/// A 32-byte ledger address.
#[derive(Clone, Copy, Debug)]
pub struct Address {
    pub bytes: [u8; 32],
}

impl View for Address {
    type V = Seq<u8>;

    open spec fn view(&self) -> Seq<u8> {
        self.bytes@
    }
}

impl Address {
    /// Whether the two addresses hold the same bytes.
    pub fn same_as(&self, other: &Address) -> (r: bool)
        ensures
            r == (self@ == other@),
    {
        let mut i: usize = 0;
        while i < 32
            invariant
                0 <= i <= 32,
                self@.len() == 32,
                other@.len() == 32,
                forall|j: int| 0 <= j < i ==> self@[j] == other@[j],
            decreases 32 - i,
        {
            if self.bytes[i] != other.bytes[i] {
                return false;
            }
            i = i + 1;
        }
        proof {
            assert(self@ =~= other@);
        }
        true
    }
}

/// An optional address equals the given key.
pub open spec fn opt_key_is(o: Option<Address>, key: Seq<u8>) -> bool {
    match o {
        Some(a) => a@ == key,
        None => false,
    }
}

/// Whether `o` holds the address `key`.
pub fn opt_key_matches(o: &Option<Address>, key: &Address) -> (r: bool)
    ensures
        r == opt_key_is(*o, key@),
{
    match o {
        Some(a) => a.same_as(key),
        None => false,
    }
}

/// What the engine reads of a token account.
#[derive(Clone, Copy, Debug)]
pub struct TokenAccountState {
    /// The account's own address.
    pub key: Address,
    /// The asset it holds.
    pub mint: Address,
    /// Who controls it.
    pub owner: Address,
    /// Its balance.
    pub amount: u64,
    /// A delegate allowed to spend from it, if any.
    pub delegate: Option<Address>,
    /// An authority allowed to close it, if any.
    pub close_authority: Option<Address>,
}

/// What the engine reads of the LP token mint.
#[derive(Clone, Copy, Debug)]
pub struct MintState {
    /// The mint's own address.
    pub key: Address,
    /// Who may mint, if anyone.
    pub mint_authority: Option<Address>,
    /// The tokens in circulation.
    pub supply: u64,
    /// Who may freeze accounts, if anyone.
    pub freeze_authority: Option<Address>,
}

/// The four fee fractions as stored in a pool record.
#[derive(Clone, Copy, Debug, Default, PartialEq, Eq, Structural)]
pub struct FeesInput {
    pub trade_fee_numerator: u64,
    pub trade_fee_denominator: u64,
    pub owner_trade_fee_numerator: u64,
    pub owner_trade_fee_denominator: u64,
    pub owner_withdraw_fee_numerator: u64,
    pub owner_withdraw_fee_denominator: u64,
    pub host_fee_numerator: u64,
    pub host_fee_denominator: u64,
}

/// The curve as stored in a pool record: its kind (0 constant product,
/// 1 constant price, 2 stable, 3 offset) and its parameter.
#[derive(Clone, Copy, Debug, Default, PartialEq, Eq, Structural)]
pub struct CurveInput {
    pub curve_type: u8,
    pub curve_parameters: u64,
}

/// A pool record.
#[derive(Clone, Copy, Debug)]
pub struct Amm {
    /// Whether the pool has been initialized.
    pub is_initialized: bool,
    /// The bump seed of the pool's derived authority.
    pub bump_seed: u8,
    /// The token program the pool works with.
    pub token_program_id: Address,
    /// The reserve account of token A.
    pub token_a_account: Address,
    /// The reserve account of token B.
    pub token_b_account: Address,
    /// The LP token mint.
    pub pool_mint: Address,
    /// The asset of token A.
    pub token_a_mint: Address,
    /// The asset of token B.
    pub token_b_mint: Address,
    /// The account that receives the owner's LP fees.
    pub pool_fee_account: Address,
    pub fees: FeesInput,
    pub curve: CurveInput,
}

/// The curve a stored curve description stands for; `None` for an unknown kind.
pub open spec fn curve_of_input(c: CurveInput) -> Option<SwapCurve> {
    if c.curve_type == 0 {
        Some(SwapCurve { calculator: CurveCalculator::ConstantProduct })
    } else if c.curve_type == 1 {
        Some(SwapCurve { calculator: CurveCalculator::ConstantPrice { token_b_price: c.curve_parameters } })
    } else if c.curve_type == 2 {
        Some(SwapCurve { calculator: CurveCalculator::Stable { amp: c.curve_parameters } })
    } else if c.curve_type == 3 {
        Some(SwapCurve { calculator: CurveCalculator::Offset { token_b_offset: c.curve_parameters } })
    } else {
        None
    }
}

/// The fee schedule a stored fee description stands for.
pub open spec fn fees_of_input(f: FeesInput) -> CurveFees {
    CurveFees {
        trade_fee_numerator: f.trade_fee_numerator,
        trade_fee_denominator: f.trade_fee_denominator,
        owner_trade_fee_numerator: f.owner_trade_fee_numerator,
        owner_trade_fee_denominator: f.owner_trade_fee_denominator,
        owner_withdraw_fee_numerator: f.owner_withdraw_fee_numerator,
        owner_withdraw_fee_denominator: f.owner_withdraw_fee_denominator,
        host_fee_numerator: f.host_fee_numerator,
        host_fee_denominator: f.host_fee_denominator,
    }
}

/// Builds the curve of a stored curve description.
pub fn build_curve(curve_input: &CurveInput) -> (r: Result<SwapCurve, SwapError>)
    ensures
        r == (match curve_of_input(*curve_input) {
            Some(c) => Ok(c),
            None => Err(SwapError::InvalidCurve),
        }),
{
    let p = curve_input.curve_parameters;
    let calculator = match curve_input.curve_type {
        0 => CurveCalculator::ConstantProduct,
        1 => CurveCalculator::ConstantPrice { token_b_price: p },
        2 => CurveCalculator::Stable { amp: p },
        3 => CurveCalculator::Offset { token_b_offset: p },
        _ => {
            return Err(SwapError::InvalidCurve);
        },
    };
    Ok(SwapCurve { calculator })
}

/// Builds the fee schedule of a stored fee description.
pub fn build_fees(fees_input: &FeesInput) -> (r: Result<CurveFees, SwapError>)
    ensures
        r == Ok::<CurveFees, SwapError>(fees_of_input(*fees_input)),
{
    Ok(
        CurveFees {
            trade_fee_numerator: fees_input.trade_fee_numerator,
            trade_fee_denominator: fees_input.trade_fee_denominator,
            owner_trade_fee_numerator: fees_input.owner_trade_fee_numerator,
            owner_trade_fee_denominator: fees_input.owner_trade_fee_denominator,
            owner_withdraw_fee_numerator: fees_input.owner_withdraw_fee_numerator,
            owner_withdraw_fee_denominator: fees_input.owner_withdraw_fee_denominator,
            host_fee_numerator: fees_input.host_fee_numerator,
            host_fee_denominator: fees_input.host_fee_denominator,
        },
    )
}

/// The program-derived address of `program` for the seeds `[seed, [bump]]`,
/// or `None` when that hash is a valid curve point and so no such address
/// exists.
pub uninterp spec fn program_address(seed: Seq<u8>, bump: u8, program: Seq<u8>) -> Option<Seq<u8>>;

/// The address view of an optional address.
pub open spec fn opt_view(o: Option<Address>) -> Option<Seq<u8>> {
    match o {
        Some(a) => Some(a@),
        None => None,
    }
}

/// Relies on solana_program's `Pubkey::create_program_address`: with the two
/// seeds `[seed, [bump]]` (within its limits on seed count and length) it
/// fails only when the hash of seeds and program id is a curve point, and its
/// result depends on the seeds and the program id alone.
#[verifier::external_body]
fn create_program_address(seed: &Address, bump: u8, program_id: &Address) -> (r: Option<Address>)
    ensures
        opt_view(r) == program_address(seed@, bump, program_id@),
{
    let program = solana_program::pubkey::Pubkey::new_from_array(program_id.bytes);
    let bump_bytes = [bump];
    match solana_program::pubkey::Pubkey::create_program_address(&[&seed.bytes, &bump_bytes], &program) {
        Ok(key) => Some(Address { bytes: key.to_bytes() }),
        Err(_) => None,
    }
}

/// Relies on solana_program's `Pubkey::try_find_program_address`: it tries
/// the bump seeds from 255 down to 1 with `create_program_address` and returns
/// the first address found with its bump, or `None` when none is.
#[verifier::external_body]
pub(crate) fn find_program_address(seed: &Address, program_id: &Address) -> (r: Option<(Address, u8)>)
    ensures
        match r {
            Some((key, bump)) => {
                &&& 1 <= bump
                &&& program_address(seed@, bump, program_id@) == Some(key@)
                &&& forall|b: u8| bump < b ==> program_address(seed@, b, program_id@) is None
            },
            None => forall|b: u8| 1 <= b ==> program_address(seed@, b, program_id@) is None,
        },
{
    let program = solana_program::pubkey::Pubkey::new_from_array(program_id.bytes);
    match solana_program::pubkey::Pubkey::try_find_program_address(&[&seed.bytes], &program) {
        Some((key, bump)) => Some((Address { bytes: key.to_bytes() }, bump)),
        None => None,
    }
}

/// The authority of the pool at `my_info`, derived from its address and bump
/// seed under `program_id`.
pub fn authority_id(program_id: &Address, my_info: &Address, bump_seed: u8) -> (r: Result<
    Address,
    SwapError,
>)
    ensures
        match r {
            Ok(key) => program_address(my_info@, bump_seed, program_id@) == Some(key@),
            Err(e) => e == SwapError::InvalidProgramAddress && program_address(
                my_info@,
                bump_seed,
                program_id@,
            ) is None,
        },
{
    match create_program_address(my_info, bump_seed, program_id) {
        Some(key) => Ok(key),
        None => Err(SwapError::InvalidProgramAddress),
    }
}

} // verus!

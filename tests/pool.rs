use anchor_swap::accounts::{
    authority_id, build_curve, build_fees, Address, Amm, CurveInput, FeesInput, MintState,
    TokenAccountState,
};
use anchor_swap::curve::{CurveCalculator, TradeDirection};
use anchor_swap::error::SwapError;
use anchor_swap::processor::{initialize, split_owner_fee, swap, Initialize, Swap};
use solana_program::pubkey::Pubkey;

fn addr(n: u8) -> Address {
    Address { bytes: [n; 32] }
}

fn program_id() -> Address {
    addr(1)
}

fn amm_key() -> Address {
    addr(2)
}

fn derived_authority() -> (Address, u8) {
    let (key, bump) = Pubkey::find_program_address(
        &[&amm_key().bytes],
        &Pubkey::new_from_array(program_id().bytes),
    );
    (Address { bytes: key.to_bytes() }, bump)
}

fn token(key: u8, mint: u8, owner: Address, amount: u64) -> TokenAccountState {
    TokenAccountState {
        key: addr(key),
        mint: addr(mint),
        owner,
        amount,
        delegate: None,
        close_authority: None,
    }
}

fn fees_input() -> FeesInput {
    FeesInput {
        trade_fee_numerator: 25,
        trade_fee_denominator: 10_000,
        owner_trade_fee_numerator: 5,
        owner_trade_fee_denominator: 10_000,
        owner_withdraw_fee_numerator: 0,
        owner_withdraw_fee_denominator: 0,
        host_fee_numerator: 20,
        host_fee_denominator: 100,
    }
}

fn blank_amm() -> Amm {
    Amm {
        is_initialized: false,
        bump_seed: 0,
        token_program_id: addr(0),
        token_a_account: addr(0),
        token_b_account: addr(0),
        pool_mint: addr(0),
        token_a_mint: addr(0),
        token_b_mint: addr(0),
        pool_fee_account: addr(0),
        fees: FeesInput::default(),
        curve: CurveInput::default(),
    }
}

fn init_ctx() -> Initialize {
    let (authority, _) = derived_authority();
    Initialize {
        authority,
        initializer: addr(3),
        amm_key: amm_key(),
        amm: blank_amm(),
        pool_mint: MintState {
            key: addr(30),
            mint_authority: Some(authority),
            supply: 0,
            freeze_authority: None,
        },
        token_a: token(10, 20, authority, 1_000_000),
        token_b: token(11, 21, authority, 1_000_000),
        fee_account: token(12, 30, addr(40), 0),
        destination: token(13, 30, addr(41), 0),
        token_program: addr(5),
    }
}

fn product() -> CurveInput {
    CurveInput { curve_type: 0, curve_parameters: 0 }
}

fn pool_record() -> Amm {
    let (_, bump) = derived_authority();
    Amm {
        is_initialized: true,
        bump_seed: bump,
        token_program_id: addr(5),
        token_a_account: addr(10),
        token_b_account: addr(11),
        pool_mint: addr(30),
        token_a_mint: addr(20),
        token_b_mint: addr(21),
        pool_fee_account: addr(12),
        fees: fees_input(),
        curve: product(),
    }
}

fn swap_ctx() -> Swap {
    let (authority, _) = derived_authority();
    Swap {
        authority,
        amm_key: amm_key(),
        amm_owner: program_id(),
        amm: pool_record(),
        user_transfer_authority: addr(60),
        source_info: addr(50),
        destination_info: addr(51),
        swap_source: token(10, 20, authority, 1_000_000),
        swap_destination: token(11, 21, authority, 1_000_000),
        pool_mint: MintState {
            key: addr(30),
            mint_authority: Some(authority),
            supply: 1_000_000_000,
            freeze_authority: None,
        },
        fee_account: token(12, 30, addr(40), 0),
        token_program: addr(5),
        host_fee_account: None,
    }
}

#[test]
fn authority_is_derived_not_echoed() {
    let (expected, bump) = derived_authority();
    let got = authority_id(&program_id(), &amm_key(), bump).unwrap();
    assert_eq!(got.bytes, expected.bytes);
    assert_ne!(got.bytes, amm_key().bytes);
    assert_ne!(got.bytes, program_id().bytes);
}

#[test]
fn initialize_writes_pool_record() {
    let mut ctx = init_ctx();
    let (_, bump) = derived_authority();
    let r = initialize(&mut ctx, &program_id(), fees_input(), product());
    assert_eq!(r, Ok(1_000_000_000));
    assert!(ctx.amm.is_initialized);
    assert_eq!(ctx.amm.bump_seed, bump);
    assert_eq!(ctx.amm.token_a_account.bytes, addr(10).bytes);
    assert_eq!(ctx.amm.token_b_account.bytes, addr(11).bytes);
    assert_eq!(ctx.amm.pool_mint.bytes, addr(30).bytes);
    assert_eq!(ctx.amm.token_a_mint.bytes, addr(20).bytes);
    assert_eq!(ctx.amm.token_b_mint.bytes, addr(21).bytes);
    assert_eq!(ctx.amm.pool_fee_account.bytes, addr(12).bytes);
    assert_eq!(ctx.amm.token_program_id.bytes, addr(5).bytes);
    assert_eq!(ctx.amm.fees, fees_input());
    assert_eq!(ctx.amm.curve, product());
}

#[test]
fn initialize_rejects_repeated_mint() {
    let mut ctx = init_ctx();
    ctx.token_b.mint = ctx.token_a.mint;
    let r = initialize(&mut ctx, &program_id(), fees_input(), product());
    assert_eq!(r, Err(SwapError::RepeatedMint));
    assert!(!ctx.amm.is_initialized);
}

#[test]
fn initialize_rejects_nonzero_lp_supply() {
    let mut ctx = init_ctx();
    ctx.pool_mint.supply = 5;
    let r = initialize(&mut ctx, &program_id(), fees_input(), product());
    assert_eq!(r, Err(SwapError::InvalidSupply));
    assert!(!ctx.amm.is_initialized);
}

#[test]
fn initialize_account_errors() {
    let run = |ctx: &mut Initialize| initialize(ctx, &program_id(), fees_input(), product());
    let mut c = init_ctx();
    c.amm.is_initialized = true;
    assert_eq!(run(&mut c), Err(SwapError::AlreadyInUse));
    let mut c = init_ctx();
    c.authority = addr(99);
    assert_eq!(run(&mut c), Err(SwapError::InvalidProgramAddress));
    let mut c = init_ctx();
    c.token_a.owner = addr(99);
    assert_eq!(run(&mut c), Err(SwapError::InvalidOwner));
    let mut c = init_ctx();
    c.fee_account.owner = c.authority;
    c.destination.owner = c.authority;
    assert_eq!(run(&mut c), Err(SwapError::InvalidOutputOwner));
    let mut c = init_ctx();
    c.pool_mint.mint_authority = None;
    assert_eq!(run(&mut c), Err(SwapError::InvalidOwner));
    let mut c = init_ctx();
    c.token_b.delegate = Some(addr(77));
    assert_eq!(run(&mut c), Err(SwapError::InvalidDelegate));
    let mut c = init_ctx();
    c.token_a.close_authority = Some(addr(77));
    assert_eq!(run(&mut c), Err(SwapError::InvalidCloseAuthority));
    let mut c = init_ctx();
    c.pool_mint.freeze_authority = Some(addr(77));
    assert_eq!(run(&mut c), Err(SwapError::InvalidFreezeAuthority));
    let mut c = init_ctx();
    c.fee_account.mint = addr(31);
    assert_eq!(run(&mut c), Err(SwapError::IncorrectPoolMint));
}

#[test]
fn initialize_configuration_errors() {
    let mut c = init_ctx();
    let bad_kind = CurveInput { curve_type: 9, curve_parameters: 0 };
    assert_eq!(initialize(&mut c, &program_id(), fees_input(), bad_kind), Err(SwapError::InvalidCurve));
    let mut c = init_ctx();
    let bad_amp = CurveInput { curve_type: 2, curve_parameters: 0 };
    assert_eq!(initialize(&mut c, &program_id(), fees_input(), bad_amp), Err(SwapError::InvalidCurve));
    let mut c = init_ctx();
    let mut f = fees_input();
    f.trade_fee_numerator = 20_000;
    assert_eq!(initialize(&mut c, &program_id(), f, product()), Err(SwapError::InvalidFee));
    let mut c = init_ctx();
    c.token_b.amount = 0;
    assert_eq!(initialize(&mut c, &program_id(), fees_input(), product()), Err(SwapError::EmptySupply));
    assert!(!c.amm.is_initialized);
}

#[test]
fn record_conversions() {
    assert_eq!(build_curve(&CurveInput { curve_type: 0, curve_parameters: 9 }).unwrap().calculator, CurveCalculator::ConstantProduct);
    assert_eq!(
        build_curve(&CurveInput { curve_type: 1, curve_parameters: 9 }).unwrap().calculator,
        CurveCalculator::ConstantPrice { token_b_price: 9 }
    );
    assert_eq!(
        build_curve(&CurveInput { curve_type: 2, curve_parameters: 9 }).unwrap().calculator,
        CurveCalculator::Stable { amp: 9 }
    );
    assert_eq!(
        build_curve(&CurveInput { curve_type: 3, curve_parameters: 9 }).unwrap().calculator,
        CurveCalculator::Offset { token_b_offset: 9 }
    );
    assert_eq!(build_curve(&CurveInput { curve_type: 4, curve_parameters: 9 }), Err(SwapError::InvalidCurve));
    let f = build_fees(&fees_input()).unwrap();
    assert_eq!(f.trade_fee_numerator, 25);
    assert_eq!(f.owner_trade_fee_numerator, 5);
    assert_eq!(f.host_fee_denominator, 100);
}

#[test]
fn swap_settles_owner_fee() {
    let ctx = swap_ctx();
    let st = swap(&ctx, &program_id(), 10_000, 9_000).unwrap();
    assert_eq!(st.direction, TradeDirection::AtoB);
    assert_eq!(st.source_amount, 10_000);
    assert_eq!(st.destination_amount, 9_871);
    assert_eq!(st.owner_fee_lp, 2_476);
    assert_eq!(st.host_fee_lp, 0);
}

#[test]
fn swap_shares_fee_with_host() {
    let mut ctx = swap_ctx();
    ctx.host_fee_account = Some(token(14, 30, addr(42), 0));
    let st = swap(&ctx, &program_id(), 10_000, 0).unwrap();
    assert_eq!(st.host_fee_lp, 495);
    assert_eq!(st.owner_fee_lp, 1_981);
    assert_eq!(st.host_fee_lp + st.owner_fee_lp, 2_476);
    ctx.host_fee_account = Some(token(14, 31, addr(42), 0));
    assert_eq!(swap(&ctx, &program_id(), 10_000, 0), Err(SwapError::IncorrectPoolMint));
}

#[test]
fn swap_in_other_direction() {
    let mut ctx = swap_ctx();
    std::mem::swap(&mut ctx.swap_source, &mut ctx.swap_destination);
    let st = swap(&ctx, &program_id(), 10_000, 0).unwrap();
    assert_eq!(st.direction, TradeDirection::BtoA);
    assert_eq!(st.destination_amount, 9_871);
}

#[test]
fn swap_slippage_gate() {
    let ctx = swap_ctx();
    assert_eq!(swap(&ctx, &program_id(), 10_000, 9_872), Err(SwapError::ExceededSlippage));
    assert!(swap(&ctx, &program_id(), 10_000, 9_871).is_ok());
}

#[test]
fn swap_too_small_trades_nothing() {
    let ctx = swap_ctx();
    assert_eq!(swap(&ctx, &program_id(), 0, 0), Err(SwapError::ZeroTradingTokens));
    assert_eq!(swap(&ctx, &program_id(), 1, 0), Err(SwapError::ZeroTradingTokens));
}

#[test]
fn swap_account_errors() {
    let pid = program_id();
    let mut c = swap_ctx();
    c.amm_owner = addr(98);
    assert_eq!(swap(&c, &pid, 10_000, 0), Err(SwapError::IncorrectProgramId));
    let mut c = swap_ctx();
    c.authority = addr(98);
    assert_eq!(swap(&c, &pid, 10_000, 0), Err(SwapError::InvalidProgramAddress));
    let mut c = swap_ctx();
    c.swap_source.key = addr(97);
    assert_eq!(swap(&c, &pid, 10_000, 0), Err(SwapError::IncorrectSwapAccount));
    let mut c = swap_ctx();
    c.swap_destination.key = addr(97);
    assert_eq!(swap(&c, &pid, 10_000, 0), Err(SwapError::IncorrectSwapAccount));
    let mut c = swap_ctx();
    c.swap_destination.key = c.swap_source.key;
    assert_eq!(swap(&c, &pid, 10_000, 0), Err(SwapError::InvalidInput));
    let mut c = swap_ctx();
    c.source_info = c.swap_source.key;
    assert_eq!(swap(&c, &pid, 10_000, 0), Err(SwapError::InvalidInput));
    let mut c = swap_ctx();
    c.pool_mint.key = addr(97);
    assert_eq!(swap(&c, &pid, 10_000, 0), Err(SwapError::IncorrectPoolMint));
    let mut c = swap_ctx();
    c.fee_account.key = addr(97);
    assert_eq!(swap(&c, &pid, 10_000, 0), Err(SwapError::IncorrectFeeAccount));
    let mut c = swap_ctx();
    c.token_program = addr(97);
    assert_eq!(swap(&c, &pid, 10_000, 0), Err(SwapError::IncorrectTokenProgramId));
}

#[test]
fn fee_split_adds_up() {
    let f = build_fees(&fees_input()).unwrap();
    for total in [1u128, 4, 5, 99, 2_476, 1_000_000] {
        let with_host = split_owner_fee(&f, total, true).unwrap();
        assert_eq!(with_host.owner_fee_lp + with_host.host_fee_lp, total);
        assert_eq!(with_host.host_fee_lp, total * 20 / 100);
        let alone = split_owner_fee(&f, total, false).unwrap();
        assert_eq!(alone.owner_fee_lp, total);
        assert_eq!(alone.host_fee_lp, 0);
    }
    let mut over = f;
    over.host_fee_numerator = 3;
    over.host_fee_denominator = 2;
    assert_eq!(split_owner_fee(&over, 10, true), None);
}

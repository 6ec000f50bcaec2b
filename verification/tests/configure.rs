use vydex_escrow::accounts::{Account, AccountInfo, NewAccount, TokenAccount};
use vydex_escrow::action::Action;
use vydex_escrow::address::find_config_address;
use vydex_escrow::configure::{
    initialize_config, initialize_config_at, update_config, update_config_at, InitializeConfig,
    UpdateConfig,
};
use vydex_escrow::error::{AccountError, EscrowError, ProgramError};
use vydex_escrow::pubkey::Pubkey;
use vydex_escrow::state::Config;

const PROGRAM: Pubkey = Pubkey { bytes: [7; 32] };

fn key(n: u8) -> Pubkey {
    Pubkey { bytes: [n; 32] }
}

fn wallet(n: u8) -> AccountInfo {
    AccountInfo { key: key(n), is_signer: true, is_writable: true }
}

fn init_ctx() -> InitializeConfig {
    InitializeConfig {
        config: NewAccount { key: find_config_address(&PROGRAM).unwrap().0, in_use: false },
        admin: key(1),
        arbiter: key(2),
        usdc_mint: key(3),
        fee_vault: Account {
            key: key(4),
            is_writable: false,
            data: TokenAccount { mint: key(3), owner: key(9) },
        },
        payer: wallet(5),
        system_program: key(0),
    }
}

fn init(ctx: &InitializeConfig) -> Result<Config, ProgramError> {
    initialize_config(&PROGRAM, ctx, 500, 259_200, 1_209_600, 200_000_000).map(|i| i.config)
}

fn account(error: AccountError) -> ProgramError {
    ProgramError::Account(error)
}

fn escrow(error: EscrowError) -> ProgramError {
    ProgramError::Escrow(error)
}

fn update_ctx() -> UpdateConfig {
    let ctx = init_ctx();
    UpdateConfig {
        config: Account { key: ctx.config.key, is_writable: true, data: init(&ctx).unwrap() },
        admin: wallet(1),
    }
}

#[test]
fn launch_configuration() {
    let ctx = init_ctx();
    let made = initialize_config(&PROGRAM, &ctx, 500, 259_200, 1_209_600, 200_000_000).unwrap();
    let bump = find_config_address(&PROGRAM).unwrap().1;
    assert_eq!(
        made.config,
        Config {
            admin: key(1),
            arbiter: key(2),
            usdc_mint: key(3),
            fee_vault: key(4),
            fee_bps: 500,
            default_review_period: 259_200,
            delivery_deadline: 1_209_600,
            max_deal_amount: 200_000_000,
            paused: false,
            bump,
        }
    );
    assert_eq!(
        made.actions,
        vec![Action::CreateAccount {
            address: ctx.config.key,
            payer: key(5),
            space: 164,
            owner: PROGRAM,
        }]
    );
}

#[test]
fn initialisation_checks_its_values() {
    let ctx = init_ctx();
    let try_values = |fee: u16, period: i64, cap: u64| {
        initialize_config(&PROGRAM, &ctx, fee, period, 0, cap).map(|_| ())
    };
    assert_eq!(try_values(1_000, 3_600, 1), Ok(()));
    assert_eq!(try_values(1_000, 2_592_000, 1), Ok(()));
    assert_eq!(try_values(1_001, 3_600, 1), Err(escrow(EscrowError::FeeTooHigh)));
    assert_eq!(try_values(0, 3_600, 0), Err(escrow(EscrowError::ZeroAmount)));
    assert_eq!(try_values(0, 3_599, 1), Err(escrow(EscrowError::InvalidReviewPeriod)));
    assert_eq!(try_values(0, 2_592_001, 1), Err(escrow(EscrowError::InvalidReviewPeriod)));
    assert_eq!(try_values(1_001, 0, 0), Err(escrow(EscrowError::FeeTooHigh)));
    assert_eq!(try_values(0, 0, 0), Err(escrow(EscrowError::ZeroAmount)));
}

#[test]
fn initialisation_checks_its_accounts() {
    let mut ctx = init_ctx();
    ctx.payer.is_signer = false;
    assert_eq!(init(&ctx), Err(account(AccountError::AccountNotSigner)));
    let mut ctx = init_ctx();
    ctx.system_program = key(1);
    assert_eq!(init(&ctx), Err(account(AccountError::InvalidProgramId)));
    let mut ctx = init_ctx();
    ctx.config.key = key(99);
    assert_eq!(init(&ctx), Err(account(AccountError::ConstraintSeeds)));
    let mut ctx = init_ctx();
    ctx.config.in_use = true;
    assert_eq!(init(&ctx), Err(account(AccountError::AccountAlreadyInUse)));
    let mut ctx = init_ctx();
    ctx.fee_vault.data.mint = key(33);
    assert_eq!(init(&ctx), Err(account(AccountError::ConstraintTokenMint)));
    let mut ctx = init_ctx();
    ctx.payer.is_writable = false;
    assert_eq!(init(&ctx), Err(account(AccountError::ConstraintMut)));
}

#[test]
fn configuration_is_set_up_once() {
    let mut again = init_ctx();
    initialize_config(&PROGRAM, &again, 500, 259_200, 1_209_600, 200_000_000).unwrap();
    again.config.in_use = true;
    again.payer = wallet(77);
    again.admin = key(78);
    again.arbiter = key(79);
    for (fee_bps, review_period, cap) in [(500u16, 259_200i64, 1u64), (0, 3_600, 9), (9_999, 0, 0)]
    {
        let refused = initialize_config(&PROGRAM, &again, fee_bps, review_period, 0, cap);
        assert_eq!(
            refused.map(|made| made.config),
            Err(account(AccountError::AccountAlreadyInUse))
        );
    }
}

#[test]
fn initialisation_at_given_addresses() {
    let mut ctx = init_ctx();
    ctx.config.key = key(50);
    let made =
        initialize_config_at(&PROGRAM, &Some((key(50), 9)), &ctx, 0, 3_600, -5, 1).unwrap();
    assert_eq!(made.config.bump, 9);
    assert_eq!(made.config.delivery_deadline, -5);
    let refused = initialize_config_at(&PROGRAM, &None, &ctx, 0, 3_600, 0, 1).unwrap_err();
    assert_eq!(refused, account(AccountError::NoProgramAddress));
}

#[test]
fn update_replaces_what_is_given() {
    let mut ctx = update_ctx();
    let before = ctx.config.data;
    assert_eq!(update_config(&PROGRAM, &mut ctx, None, None, None, None, None), Ok(()));
    assert_eq!(ctx.config.data, before);
    let res = update_config(
        &PROGRAM,
        &mut ctx,
        Some(1_000),
        Some(3_600),
        Some(key(22)),
        Some(true),
        Some(u64::MAX),
    );
    assert_eq!(res, Ok(()));
    assert_eq!(
        ctx.config.data,
        Config {
            fee_bps: 1_000,
            default_review_period: 3_600,
            arbiter: key(22),
            paused: true,
            max_deal_amount: u64::MAX,
            ..before
        }
    );
}

#[test]
fn refused_update_changes_nothing() {
    let mut ctx = update_ctx();
    let before = ctx;
    let refused = update_config(&PROGRAM, &mut ctx, Some(1_001), None, None, Some(true), None);
    assert_eq!(refused, Err(escrow(EscrowError::FeeTooHigh)));
    assert_eq!(ctx, before);
    let refused = update_config(&PROGRAM, &mut ctx, Some(1), Some(3_599), None, None, None);
    assert_eq!(refused, Err(escrow(EscrowError::InvalidReviewPeriod)));
    assert_eq!(ctx, before);
    let refused = update_config(&PROGRAM, &mut ctx, Some(1), None, Some(key(3)), None, Some(0));
    assert_eq!(refused, Err(escrow(EscrowError::ZeroAmount)));
    assert_eq!(ctx, before);
}

#[test]
fn update_checks_its_accounts() {
    let try_ctx = |mut ctx: UpdateConfig| {
        update_config(&PROGRAM, &mut ctx, None, None, None, Some(true), None).unwrap_err()
    };
    let mut ctx = update_ctx();
    ctx.admin.is_signer = false;
    assert_eq!(try_ctx(ctx), account(AccountError::AccountNotSigner));
    let mut ctx = update_ctx();
    ctx.config.key = key(98);
    assert_eq!(try_ctx(ctx), account(AccountError::ConstraintSeeds));
    let mut ctx = update_ctx();
    ctx.config.is_writable = false;
    assert_eq!(try_ctx(ctx), account(AccountError::ConstraintMut));
    let mut ctx = update_ctx();
    ctx.admin.key = key(2);
    assert_eq!(try_ctx(ctx), escrow(EscrowError::Unauthorized));
}

#[test]
fn update_at_given_address() {
    let mut ctx = update_ctx();
    ctx.config.key = key(60);
    let res = update_config_at(&Some(key(60)), &mut ctx, Some(7), None, None, None, None);
    assert_eq!(res, Ok(()));
    assert_eq!(ctx.config.data.fee_bps, 7);
    let res = update_config_at(&None, &mut ctx, Some(7), None, None, None, None);
    assert_eq!(res, Err(account(AccountError::ConstraintSeeds)));
}

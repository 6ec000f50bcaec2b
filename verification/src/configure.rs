//! The global configuration: its one initialisation and its updates.
use vstd::prelude::*;

use crate::accounts::{
    account_rule, check_creation, creation_fault, is_system_program, or, rule,
    system_program_fault, Account, AccountInfo, NewAccount, TokenAccount,
};
use crate::action::Action;
use crate::address::{
    address_bytes, bump_of, canonical, config_address, config_seeds, drop_bump, find_config_address,
    found_bytes, program_address, stands_at, without_bump,
};
use crate::constants::{CONFIG_SPACE, MAX_FEE_BPS, MAX_REVIEW_PERIOD, MIN_REVIEW_PERIOD};
use crate::error::{AccountError, EscrowError, ProgramError};
use crate::pubkey::Pubkey;
use crate::state::{review_period_allowed, Config};

verus! {

/// The accounts by which the configuration is initialised.
#[derive(Clone, Copy, Debug, PartialEq, Eq)]
pub struct InitializeConfig {
    pub config: NewAccount,
    /// The multisig that will change the configuration. It does not sign.
    pub admin: Pubkey,
    /// The multisig that will decide disputes.
    pub arbiter: Pubkey,
    pub usdc_mint: Pubkey,
    pub fee_vault: Account<TokenAccount>,
    pub payer: AccountInfo,
    pub system_program: Pubkey,
}

/// The initialised configuration, and what that has the ledger do.
#[derive(Debug)]
pub struct Initialization {
    pub config: Config,
    pub actions: Vec<Action>,
}

impl InitializeConfig {
    /// What is wrong with the accounts, the first violation first.
    pub open spec fn fault(self, address: Option<Seq<u8>>) -> Option<ProgramError> {
        let f = account_rule(self.payer.is_signer, AccountError::AccountNotSigner);
        let f = or(f, system_program_fault(self.system_program));
        let f = or(f, creation_fault(self.config, address));
        let f = or(
            f,
            account_rule(
                self.fee_vault.data.mint == self.usdc_mint,
                AccountError::ConstraintTokenMint,
            ),
        );
        or(f, account_rule(self.payer.is_writable, AccountError::ConstraintMut))
    }

    /// Finds what is wrong with the accounts.
    pub fn check(&self, address: &Option<Pubkey>) -> (fault: Option<ProgramError>)
        ensures
            fault == self.fault(address_bytes(*address)),
    {
        if !self.payer.is_signer {
            return Some(ProgramError::Account(AccountError::AccountNotSigner));
        }
        if !is_system_program(&self.system_program) {
            return Some(ProgramError::Account(AccountError::InvalidProgramId));
        }
        if let Some(e) = check_creation(&self.config, address) {
            return Some(e);
        }
        if self.fee_vault.data.mint != self.usdc_mint {
            return Some(ProgramError::Account(AccountError::ConstraintTokenMint));
        }
        if !self.payer.is_writable {
            return Some(ProgramError::Account(AccountError::ConstraintMut));
        }
        None
    }
}

/// Why an initialisation is refused, if it is.
pub open spec fn initialize_config_fault(
    ctx: InitializeConfig,
    found: Option<(Seq<u8>, u8)>,
    fee_bps: u16,
    default_review_period: i64,
    max_deal_amount: u64,
) -> Option<ProgramError> {
    let f = ctx.fault(without_bump(found));
    let f = or(f, rule(fee_bps <= MAX_FEE_BPS, EscrowError::FeeTooHigh));
    let f = or(f, rule(max_deal_amount > 0, EscrowError::ZeroAmount));
    or(
        f,
        rule(review_period_allowed(default_review_period), EscrowError::InvalidReviewPeriod),
    )
}

/// The initialised configuration.
pub open spec fn initialized(
    ctx: InitializeConfig,
    bump: u8,
    fee_bps: u16,
    default_review_period: i64,
    delivery_deadline: i64,
    max_deal_amount: u64,
) -> Config {
    Config {
        admin: ctx.admin,
        arbiter: ctx.arbiter,
        usdc_mint: ctx.usdc_mint,
        fee_vault: ctx.fee_vault.key,
        fee_bps,
        default_review_period,
        delivery_deadline,
        max_deal_amount,
        paused: false,
        bump,
    }
}

/// What an initialisation has the ledger do.
pub open spec fn initialize_config_actions(program_id: Pubkey, ctx: InitializeConfig) -> Seq<
    Action,
> {
    seq![
        Action::CreateAccount {
            address: ctx.config.key,
            payer: ctx.payer.key,
            space: CONFIG_SPACE,
            owner: program_id,
        },
    ]
}

/// What an initialisation comes to, given the derived address.
pub open spec fn initialize_config_result(
    program_id: Pubkey,
    ctx: InitializeConfig,
    found: Option<(Seq<u8>, u8)>,
    fee_bps: u16,
    default_review_period: i64,
    delivery_deadline: i64,
    max_deal_amount: u64,
    res: Result<Initialization, ProgramError>,
) -> bool {
    match (
        initialize_config_fault(ctx, found, fee_bps, default_review_period, max_deal_amount),
        res,
    ) {
        (Some(e), Err(r)) => r == e,
        (None, Ok(i)) => {
            &&& i.config == initialized(
                ctx,
                bump_of(found),
                fee_bps,
                default_review_period,
                delivery_deadline,
                max_deal_amount,
            )
            &&& i.actions@ == initialize_config_actions(program_id, ctx)
        },
        _ => false,
    }
}

/// Initialises the configuration, given the derived address.
pub fn initialize_config_at(
    program_id: &Pubkey,
    found: &Option<(Pubkey, u8)>,
    ctx: &InitializeConfig,
    fee_bps: u16,
    default_review_period: i64,
    delivery_deadline: i64,
    max_deal_amount: u64,
) -> (res: Result<Initialization, ProgramError>)
    ensures
        initialize_config_result(
            *program_id,
            *ctx,
            found_bytes(*found),
            fee_bps,
            default_review_period,
            delivery_deadline,
            max_deal_amount,
            res,
        ),
{
    if let Some(e) = ctx.check(&drop_bump(*found)) {
        return Err(e);
    }
    let bump: u8 = match found {
        Some((_, bump)) => *bump,
        None => return Err(ProgramError::Account(AccountError::NoProgramAddress)),
    };
    if fee_bps > MAX_FEE_BPS {
        return Err(ProgramError::Escrow(EscrowError::FeeTooHigh));
    }
    if max_deal_amount == 0 {
        return Err(ProgramError::Escrow(EscrowError::ZeroAmount));
    }
    if default_review_period < MIN_REVIEW_PERIOD || default_review_period > MAX_REVIEW_PERIOD {
        return Err(ProgramError::Escrow(EscrowError::InvalidReviewPeriod));
    }
    let mut actions: Vec<Action> = Vec::new();
    actions.push(
        Action::CreateAccount {
            address: ctx.config.key,
            payer: ctx.payer.key,
            space: CONFIG_SPACE,
            owner: *program_id,
        },
    );
    Ok(
        Initialization {
            config: Config {
                admin: ctx.admin,
                arbiter: ctx.arbiter,
                usdc_mint: ctx.usdc_mint,
                fee_vault: ctx.fee_vault.key,
                fee_bps,
                default_review_period,
                delivery_deadline,
                max_deal_amount,
                paused: false,
                bump,
            },
            actions,
        },
    )
}

/// Initialises the configuration.
pub fn initialize_config(
    program_id: &Pubkey,
    ctx: &InitializeConfig,
    fee_bps: u16,
    default_review_period: i64,
    delivery_deadline: i64,
    max_deal_amount: u64,
) -> (res: Result<Initialization, ProgramError>)
    ensures
        initialize_config_result(
            *program_id,
            *ctx,
            canonical(config_seeds(), program_id@),
            fee_bps,
            default_review_period,
            delivery_deadline,
            max_deal_amount,
            res,
        ),
{
    let found = find_config_address(program_id);
    initialize_config_at(
        program_id,
        &found,
        ctx,
        fee_bps,
        default_review_period,
        delivery_deadline,
        max_deal_amount,
    )
}

/// The accounts by which the configuration is updated.
#[derive(Clone, Copy, Debug, PartialEq, Eq)]
pub struct UpdateConfig {
    pub config: Account<Config>,
    pub admin: AccountInfo,
}

impl UpdateConfig {
    /// What is wrong with the accounts, the first violation first.
    pub open spec fn fault(self, address: Option<Seq<u8>>) -> Option<ProgramError> {
        let f = account_rule(self.admin.is_signer, AccountError::AccountNotSigner);
        let f = or(
            f,
            account_rule(address == Some(self.config.key@), AccountError::ConstraintSeeds),
        );
        let f = or(f, account_rule(self.config.is_writable, AccountError::ConstraintMut));
        or(f, rule(self.config.data.admin == self.admin.key, EscrowError::Unauthorized))
    }

    /// Finds what is wrong with the accounts.
    pub fn check(&self, address: &Option<Pubkey>) -> (fault: Option<ProgramError>)
        ensures
            fault == self.fault(address_bytes(*address)),
    {
        if !self.admin.is_signer {
            return Some(ProgramError::Account(AccountError::AccountNotSigner));
        }
        if !stands_at(&self.config.key, address) {
            return Some(ProgramError::Account(AccountError::ConstraintSeeds));
        }
        if !self.config.is_writable {
            return Some(ProgramError::Account(AccountError::ConstraintMut));
        }
        if self.config.data.admin != self.admin.key {
            return Some(ProgramError::Escrow(EscrowError::Unauthorized));
        }
        None
    }
}

/// Why an update is refused, if it is. What is not given is not checked.
pub open spec fn update_config_fault(
    ctx: UpdateConfig,
    address: Option<Seq<u8>>,
    fee_bps: Option<u16>,
    default_review_period: Option<i64>,
    max_deal_amount: Option<u64>,
) -> Option<ProgramError> {
    let f = ctx.fault(address);
    let f = or(
        f,
        rule(fee_bps matches Some(fee) ==> fee <= MAX_FEE_BPS, EscrowError::FeeTooHigh),
    );
    let f = or(
        f,
        rule(
            default_review_period matches Some(period) ==> review_period_allowed(period),
            EscrowError::InvalidReviewPeriod,
        ),
    );
    or(f, rule(max_deal_amount matches Some(cap) ==> cap > 0, EscrowError::ZeroAmount))
}

/// A given value, or else the one that stands.
pub open spec fn given_or<T>(given: Option<T>, standing: T) -> T {
    match given {
        Some(value) => value,
        None => standing,
    }
}

/// The updated configuration: each value that is given replaces the one that
/// stands.
pub open spec fn updated(
    config: Config,
    fee_bps: Option<u16>,
    default_review_period: Option<i64>,
    arbiter: Option<Pubkey>,
    paused: Option<bool>,
    max_deal_amount: Option<u64>,
) -> Config {
    Config {
        fee_bps: given_or(fee_bps, config.fee_bps),
        default_review_period: given_or(default_review_period, config.default_review_period),
        arbiter: given_or(arbiter, config.arbiter),
        paused: given_or(paused, config.paused),
        max_deal_amount: given_or(max_deal_amount, config.max_deal_amount),
        ..config
    }
}

/// What an update comes to, given the derived address.
pub open spec fn update_config_result(
    before: UpdateConfig,
    after: UpdateConfig,
    address: Option<Seq<u8>>,
    fee_bps: Option<u16>,
    default_review_period: Option<i64>,
    arbiter: Option<Pubkey>,
    paused: Option<bool>,
    max_deal_amount: Option<u64>,
    res: Result<(), ProgramError>,
) -> bool {
    match update_config_fault(before, address, fee_bps, default_review_period, max_deal_amount) {
        Some(e) => res == Err::<(), ProgramError>(e) && after == before,
        None => {
            &&& res == Ok::<(), ProgramError>(())
            &&& after == (UpdateConfig {
                config: Account {
                    data: updated(
                        before.config.data,
                        fee_bps,
                        default_review_period,
                        arbiter,
                        paused,
                        max_deal_amount,
                    ),
                    ..before.config
                },
                ..before
            })
        },
    }
}

/// Updates the configuration, given the derived address.
pub fn update_config_at(
    address: &Option<Pubkey>,
    ctx: &mut UpdateConfig,
    fee_bps: Option<u16>,
    default_review_period: Option<i64>,
    arbiter: Option<Pubkey>,
    paused: Option<bool>,
    max_deal_amount: Option<u64>,
) -> (res: Result<(), ProgramError>)
    ensures
        update_config_result(
            *old(ctx),
            *final(ctx),
            address_bytes(*address),
            fee_bps,
            default_review_period,
            arbiter,
            paused,
            max_deal_amount,
            res,
        ),
{
    if let Some(e) = ctx.check(address) {
        return Err(e);
    }
    let mut config: Config = ctx.config.data;
    if let Some(fee) = fee_bps {
        if fee > MAX_FEE_BPS {
            return Err(ProgramError::Escrow(EscrowError::FeeTooHigh));
        }
        config.fee_bps = fee;
    }
    if let Some(period) = default_review_period {
        if period < MIN_REVIEW_PERIOD || period > MAX_REVIEW_PERIOD {
            return Err(ProgramError::Escrow(EscrowError::InvalidReviewPeriod));
        }
        config.default_review_period = period;
    }
    if let Some(key) = arbiter {
        config.arbiter = key;
    }
    if let Some(cap) = max_deal_amount {
        if cap == 0 {
            return Err(ProgramError::Escrow(EscrowError::ZeroAmount));
        }
        config.max_deal_amount = cap;
    }
    if let Some(pause) = paused {
        config.paused = pause;
    }
    ctx.config.data = config;
    Ok(())
}

/// Updates the configuration.
pub fn update_config(
    program_id: &Pubkey,
    ctx: &mut UpdateConfig,
    fee_bps: Option<u16>,
    default_review_period: Option<i64>,
    arbiter: Option<Pubkey>,
    paused: Option<bool>,
    max_deal_amount: Option<u64>,
) -> (res: Result<(), ProgramError>)
    ensures
        update_config_result(
            *old(ctx),
            *final(ctx),
            program_address(config_seeds().push(seq![old(ctx).config.data.bump]), program_id@),
            fee_bps,
            default_review_period,
            arbiter,
            paused,
            max_deal_amount,
            res,
        ),
{
    let address = config_address(program_id, ctx.config.data.bump);
    update_config_at(
        &address,
        ctx,
        fee_bps,
        default_review_period,
        arbiter,
        paused,
        max_deal_amount,
    )
}

} // verus!

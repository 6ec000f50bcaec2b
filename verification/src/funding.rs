//! The creation and funding of a deal.
use vstd::prelude::*;

use crate::accounts::{
    account_rule, check_creation, check_token, creation_fault, is_system_program,
    is_token_program, or, rule, system_program_fault, token_fault, token_program_fault, Account,
    AccountInfo, NewAccount, TokenAccount,
};
use crate::action::{Action, Transfer};
use crate::address::{
    address_bytes, bump_of, canonical, config_address, config_seeds, drop_bump, escrow_seeds,
    find_escrow_address, find_vault_address, found_bytes, program_address, stands_at, vault_seeds,
    without_bump,
};
use crate::constants::ESCROW_SPACE;
use crate::error::{AccountError, EscrowError, ProgramError};
use crate::event::EscrowCreated;
use crate::pubkey::Pubkey;
use crate::state::{Config, Escrow, EscrowStatus};

verus! {

/// The accounts by which a buyer creates a deal.
#[derive(Clone, Copy, Debug, PartialEq, Eq)]
pub struct CreateAndFund {
    pub config: Account<Config>,
    pub escrow: NewAccount,
    pub vault: NewAccount,
    /// The buyer, who pays.
    pub buyer: AccountInfo,
    pub seller: Pubkey,
    pub buyer_token: Account<TokenAccount>,
    pub usdc_mint: Pubkey,
    pub token_program: Pubkey,
    pub system_program: Pubkey,
}

/// A created deal, what its creation has the ledger do, and what it announces.
#[derive(Debug)]
pub struct Creation {
    pub escrow: Escrow,
    pub actions: Vec<Action>,
    pub event: EscrowCreated,
}

/// The derived addresses that the accounts of a creation have to stand at, as
/// bytes.
pub struct CreationAddressSet {
    pub config: Option<Seq<u8>>,
    pub escrow: Option<(Seq<u8>, u8)>,
    pub vault: Option<(Seq<u8>, u8)>,
}

/// The derived addresses that the accounts of a creation have to stand at.
#[derive(Clone, Copy, Debug, PartialEq, Eq)]
pub struct CreationAddresses {
    /// The address of the configuration under its stored bump.
    pub config: Option<Pubkey>,
    /// The canonical address of the deal, with its bump.
    pub escrow: Option<(Pubkey, u8)>,
    /// The canonical address of the vault, with its bump.
    pub vault: Option<(Pubkey, u8)>,
}

impl View for CreationAddresses {
    type V = CreationAddressSet;

    open spec fn view(&self) -> CreationAddressSet {
        CreationAddressSet {
            config: address_bytes(self.config),
            escrow: found_bytes(self.escrow),
            vault: found_bytes(self.vault),
        }
    }
}

/// The addresses that a program derives for the creation of a deal.
pub open spec fn creation_addresses(
    program_id: Pubkey,
    ctx: CreateAndFund,
    order_id: u64,
) -> CreationAddressSet {
    CreationAddressSet {
        config: program_address(config_seeds().push(seq![ctx.config.data.bump]), program_id@),
        escrow: canonical(escrow_seeds(order_id, ctx.buyer.key, ctx.seller), program_id@),
        vault: canonical(vault_seeds(ctx.escrow.key), program_id@),
    }
}

impl CreateAndFund {
    /// What is wrong with the accounts, the first violation first.
    pub open spec fn fault(self, at: CreationAddressSet) -> Option<ProgramError> {
        let f = account_rule(self.buyer.is_signer, AccountError::AccountNotSigner);
        let f = or(f, token_program_fault(self.token_program));
        let f = or(f, system_program_fault(self.system_program));
        let f = or(f, creation_fault(self.escrow, without_bump(at.escrow)));
        let f = or(f, creation_fault(self.vault, without_bump(at.vault)));
        let f = or(
            f,
            account_rule(at.config == Some(self.config.key@), AccountError::ConstraintSeeds),
        );
        let f = or(f, account_rule(self.buyer.is_writable, AccountError::ConstraintMut));
        let f = or(f, token_fault(self.buyer_token, self.buyer.key, self.usdc_mint));
        or(f, rule(self.usdc_mint == self.config.data.usdc_mint, EscrowError::WrongMint))
    }

    /// Finds what is wrong with the accounts.
    pub fn check(&self, at: &CreationAddresses) -> (fault: Option<ProgramError>)
        ensures
            fault == self.fault(at@),
    {
        if !self.buyer.is_signer {
            return Some(ProgramError::Account(AccountError::AccountNotSigner));
        }
        if !is_token_program(&self.token_program) {
            return Some(ProgramError::Account(AccountError::InvalidProgramId));
        }
        if !is_system_program(&self.system_program) {
            return Some(ProgramError::Account(AccountError::InvalidProgramId));
        }
        if let Some(e) = check_creation(&self.escrow, &drop_bump(at.escrow)) {
            return Some(e);
        }
        if let Some(e) = check_creation(&self.vault, &drop_bump(at.vault)) {
            return Some(e);
        }
        if !stands_at(&self.config.key, &at.config) {
            return Some(ProgramError::Account(AccountError::ConstraintSeeds));
        }
        if !self.buyer.is_writable {
            return Some(ProgramError::Account(AccountError::ConstraintMut));
        }
        if let Some(e) = check_token(&self.buyer_token, &self.buyer.key, &self.usdc_mint) {
            return Some(e);
        }
        if self.usdc_mint != self.config.data.usdc_mint {
            return Some(ProgramError::Escrow(EscrowError::WrongMint));
        }
        None
    }
}

/// Why a creation is refused, if it is.
pub open spec fn create_and_fund_fault(
    ctx: CreateAndFund,
    at: CreationAddressSet,
    amount: u64,
) -> Option<ProgramError> {
    let config = ctx.config.data;
    let f = ctx.fault(at);
    let f = or(f, rule(!config.paused, EscrowError::ProtocolPaused));
    let f = or(f, rule(amount > 0, EscrowError::ZeroAmount));
    let f = or(f, rule(amount <= config.max_deal_amount, EscrowError::DealTooLarge));
    or(f, rule(ctx.buyer.key != ctx.seller, EscrowError::SelfDeal))
}

/// The created deal.
pub open spec fn created(
    ctx: CreateAndFund,
    bump: u8,
    order_id: u64,
    amount: u64,
    instant_delivery: bool,
    now: i64,
) -> Escrow {
    Escrow {
        order_id,
        buyer: ctx.buyer.key,
        seller: ctx.seller,
        amount,
        tip: 0,
        created_at: now,
        delivered_at: if instant_delivery {
            now
        } else {
            0
        },
        review_period: ctx.config.data.default_review_period,
        status: if instant_delivery {
            EscrowStatus::Delivered
        } else {
            EscrowStatus::Funded
        },
        bump,
    }
}

/// What a creation has the ledger do: the deal's account, then its vault, which
/// the deal disposes of, both at the buyer's expense, then the payment.
pub open spec fn create_and_fund_actions(
    program_id: Pubkey,
    ctx: CreateAndFund,
    amount: u64,
) -> Seq<Action> {
    seq![
        Action::CreateAccount {
            address: ctx.escrow.key,
            payer: ctx.buyer.key,
            space: ESCROW_SPACE,
            owner: program_id,
        },
        Action::CreateTokenAccount {
            address: ctx.vault.key,
            payer: ctx.buyer.key,
            mint: ctx.usdc_mint,
            authority: ctx.escrow.key,
        },
        Action::Transfer(
            Transfer {
                from: ctx.buyer_token.key,
                to: ctx.vault.key,
                authority: ctx.buyer.key,
                amount,
            },
        ),
    ]
}

/// What a creation comes to, given the derived addresses.
pub open spec fn create_and_fund_result(
    program_id: Pubkey,
    ctx: CreateAndFund,
    at: CreationAddressSet,
    order_id: u64,
    amount: u64,
    instant_delivery: bool,
    now: i64,
    res: Result<Creation, ProgramError>,
) -> bool {
    match (create_and_fund_fault(ctx, at, amount), res) {
        (Some(e), Err(r)) => r == e,
        (None, Ok(c)) => {
            &&& c.escrow == created(
                ctx,
                bump_of(at.escrow),
                order_id,
                amount,
                instant_delivery,
                now,
            )
            &&& c.actions@ == create_and_fund_actions(program_id, ctx, amount)
            &&& c.event == (EscrowCreated {
                escrow: ctx.escrow.key,
                order_id,
                buyer: ctx.buyer.key,
                seller: ctx.seller,
                amount,
                instant_delivery,
            })
        },
        _ => false,
    }
}

/// Creates and funds a deal, given the derived addresses. A deal whose goods
/// are delivered with the payment starts out delivered.
pub fn create_and_fund_at(
    program_id: &Pubkey,
    at: &CreationAddresses,
    ctx: &CreateAndFund,
    order_id: u64,
    amount: u64,
    instant_delivery: bool,
    now: i64,
) -> (res: Result<Creation, ProgramError>)
    ensures
        create_and_fund_result(
            *program_id,
            *ctx,
            at@,
            order_id,
            amount,
            instant_delivery,
            now,
            res,
        ),
{
    if let Some(e) = ctx.check(at) {
        return Err(e);
    }
    let bump: u8 = match at.escrow {
        Some((_, bump)) => bump,
        None => return Err(ProgramError::Account(AccountError::NoProgramAddress)),
    };
    if ctx.config.data.paused {
        return Err(ProgramError::Escrow(EscrowError::ProtocolPaused));
    }
    if amount == 0 {
        return Err(ProgramError::Escrow(EscrowError::ZeroAmount));
    }
    if amount > ctx.config.data.max_deal_amount {
        return Err(ProgramError::Escrow(EscrowError::DealTooLarge));
    }
    if ctx.buyer.key == ctx.seller {
        return Err(ProgramError::Escrow(EscrowError::SelfDeal));
    }
    let escrow = Escrow {
        order_id,
        buyer: ctx.buyer.key,
        seller: ctx.seller,
        amount,
        tip: 0,
        created_at: now,
        delivered_at: if instant_delivery {
            now
        } else {
            0
        },
        review_period: ctx.config.data.default_review_period,
        status: if instant_delivery {
            EscrowStatus::Delivered
        } else {
            EscrowStatus::Funded
        },
        bump,
    };
    let mut actions: Vec<Action> = Vec::new();
    actions.push(
        Action::CreateAccount {
            address: ctx.escrow.key,
            payer: ctx.buyer.key,
            space: ESCROW_SPACE,
            owner: *program_id,
        },
    );
    actions.push(
        Action::CreateTokenAccount {
            address: ctx.vault.key,
            payer: ctx.buyer.key,
            mint: ctx.usdc_mint,
            authority: ctx.escrow.key,
        },
    );
    actions.push(
        Action::Transfer(
            Transfer {
                from: ctx.buyer_token.key,
                to: ctx.vault.key,
                authority: ctx.buyer.key,
                amount,
            },
        ),
    );
    assert(actions@ =~= create_and_fund_actions(*program_id, *ctx, amount));
    Ok(
        Creation {
            escrow,
            actions,
            event: EscrowCreated {
                escrow: ctx.escrow.key,
                order_id,
                buyer: ctx.buyer.key,
                seller: ctx.seller,
                amount,
                instant_delivery,
            },
        },
    )
}

/// Creates and funds a deal.
pub fn create_and_fund(
    program_id: &Pubkey,
    ctx: &CreateAndFund,
    order_id: u64,
    amount: u64,
    instant_delivery: bool,
    now: i64,
) -> (res: Result<Creation, ProgramError>)
    ensures
        create_and_fund_result(
            *program_id,
            *ctx,
            creation_addresses(*program_id, *ctx, order_id),
            order_id,
            amount,
            instant_delivery,
            now,
            res,
        ),
{
    let at = CreationAddresses {
        config: config_address(program_id, ctx.config.data.bump),
        escrow: find_escrow_address(program_id, order_id, &ctx.buyer.key, &ctx.seller),
        vault: find_vault_address(program_id, &ctx.escrow.key),
    };
    create_and_fund_at(program_id, &at, ctx, order_id, amount, instant_delivery, now)
}

} // verus!

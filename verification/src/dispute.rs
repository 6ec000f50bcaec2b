//! Disputes: opening one, and the arbiter's decision.
use vstd::prelude::*;

use crate::accounts::{
    account_rule, all_distinct, check_escrow, check_token, check_vault, escrow_fault,
    is_token_program, or, rule, token_fault, token_program_fault, vault_fault, Account,
    AccountInfo, TokenAccount,
};
use crate::action::Action;
use crate::address::{
    address_bytes, derive_settlement_addresses, escrow_address, owned_bytes, program_address,
    settlement_addresses, signer_seeds, stands_at, AddressSet, Addresses,
};
use crate::constants::BPS_DENOMINATOR;
use crate::error::{AccountError, EscrowError, ProgramError};
use crate::event::{DisputeOpened, DisputeResolved};
use crate::payout::{close, pay_if_any, split_actions, Settlement};
use crate::pubkey::Pubkey;
use crate::shares::{compute_share, lemma_share_bounds, share, split_fee};
use crate::state::{Config, Escrow, EscrowStatus};

verus! {

/// The accounts by which a dispute is decided.
#[derive(Clone, Copy, Debug, PartialEq, Eq)]
pub struct ResolveDispute {
    pub config: Account<Config>,
    /// The multisig that decides.
    pub arbiter: AccountInfo,
    pub escrow: Account<Escrow>,
    pub vault: Account<TokenAccount>,
    /// Gets the vault's rent.
    pub buyer: AccountInfo,
    pub seller: Pubkey,
    pub buyer_token: Account<TokenAccount>,
    pub seller_token: Account<TokenAccount>,
    pub fee_vault: Account<TokenAccount>,
    pub token_program: Pubkey,
}

impl ResolveDispute {
    /// The accounts that are written.
    pub open spec fn written(self) -> Seq<Pubkey> {
        seq![
            self.escrow.key,
            self.vault.key,
            self.buyer_token.key,
            self.seller_token.key,
            self.fee_vault.key,
        ]
    }

    /// What is wrong with the accounts, the first violation first.
    pub open spec fn fault(self, at: AddressSet) -> Option<ProgramError> {
        let config = self.config.data;
        let escrow = self.escrow.data;
        let f = account_rule(self.arbiter.is_signer, AccountError::AccountNotSigner);
        let f = or(f, token_program_fault(self.token_program));
        let f = or(
            f,
            account_rule(
                self.written().no_duplicates(),
                AccountError::ConstraintDuplicateMutableAccount,
            ),
        );
        let f = or(
            f,
            account_rule(at.config == Some(self.config.key@), AccountError::ConstraintSeeds),
        );
        let f = or(f, rule(config.arbiter == self.arbiter.key, EscrowError::Unauthorized));
        let f = or(f, rule(config.fee_vault == self.fee_vault.key, EscrowError::WrongFeeVault));
        let f = or(f, escrow_fault(self.escrow, at.escrow));
        let f = or(f, rule(escrow.buyer == self.buyer.key, EscrowError::Unauthorized));
        let f = or(f, rule(escrow.seller == self.seller, EscrowError::Unauthorized));
        let f = or(f, vault_fault(self.vault, at.vault, self.escrow.key));
        let f = or(f, account_rule(self.buyer.is_writable, AccountError::ConstraintMut));
        let f = or(f, token_fault(self.buyer_token, self.buyer.key, config.usdc_mint));
        let f = or(f, token_fault(self.seller_token, self.seller, config.usdc_mint));
        or(f, account_rule(self.fee_vault.is_writable, AccountError::ConstraintMut))
    }

    /// Finds what is wrong with the accounts.
    pub fn check(&self, at: &Addresses) -> (fault: Option<ProgramError>)
        ensures
            fault == self.fault(at@),
    {
        if !self.arbiter.is_signer {
            return Some(ProgramError::Account(AccountError::AccountNotSigner));
        }
        if !is_token_program(&self.token_program) {
            return Some(ProgramError::Account(AccountError::InvalidProgramId));
        }
        let written: [Pubkey; 5] = [
            self.escrow.key,
            self.vault.key,
            self.buyer_token.key,
            self.seller_token.key,
            self.fee_vault.key,
        ];
        assert(written@ =~= self.written());
        if !all_distinct(written.as_slice()) {
            return Some(ProgramError::Account(AccountError::ConstraintDuplicateMutableAccount));
        }
        if !stands_at(&self.config.key, &at.config) {
            return Some(ProgramError::Account(AccountError::ConstraintSeeds));
        }
        if self.config.data.arbiter != self.arbiter.key {
            return Some(ProgramError::Escrow(EscrowError::Unauthorized));
        }
        if self.config.data.fee_vault != self.fee_vault.key {
            return Some(ProgramError::Escrow(EscrowError::WrongFeeVault));
        }
        if let Some(e) = check_escrow(&self.escrow, &at.escrow) {
            return Some(e);
        }
        if self.escrow.data.buyer != self.buyer.key {
            return Some(ProgramError::Escrow(EscrowError::Unauthorized));
        }
        if self.escrow.data.seller != self.seller {
            return Some(ProgramError::Escrow(EscrowError::Unauthorized));
        }
        if let Some(e) = check_vault(&self.vault, &at.vault, &self.escrow.key) {
            return Some(e);
        }
        if !self.buyer.is_writable {
            return Some(ProgramError::Account(AccountError::ConstraintMut));
        }
        let mint = &self.config.data.usdc_mint;
        if let Some(e) = check_token(&self.buyer_token, &self.buyer.key, mint) {
            return Some(e);
        }
        if let Some(e) = check_token(&self.seller_token, &self.seller, mint) {
            return Some(e);
        }
        if !self.fee_vault.is_writable {
            return Some(ProgramError::Account(AccountError::ConstraintMut));
        }
        None
    }
}

/// Why a decision is refused, if it is.
pub open spec fn resolve_dispute_fault(
    ctx: ResolveDispute,
    at: AddressSet,
    seller_bps: u16,
) -> Option<ProgramError> {
    let escrow = ctx.escrow.data;
    let gross = share(escrow.amount, seller_bps);
    let fee = share(gross as u64, ctx.config.data.fee_bps);
    let f = ctx.fault(at);
    let f = or(f, rule(escrow.status is Disputed, EscrowError::InvalidStatus));
    let f = or(f, rule(seller_bps <= BPS_DENOMINATOR, EscrowError::InvalidBps));
    or(f, rule(fee <= gross, EscrowError::MathOverflow))
}

/// The deal after a decision: refunded where it gives the seller nothing,
/// released where it gives them everything, and split between.
pub open spec fn resolved(escrow: Escrow, seller_bps: u16) -> Escrow {
    Escrow {
        status: if seller_bps == 0 {
            EscrowStatus::Refunded
        } else if seller_bps == BPS_DENOMINATOR {
            EscrowStatus::Released
        } else {
            EscrowStatus::Split
        },
        ..escrow
    }
}

/// What a decision has the ledger do.
pub open spec fn resolve_dispute_actions(ctx: ResolveDispute, seller_bps: u16) -> Seq<Action> {
    split_actions(
        ctx.escrow,
        ctx.vault.key,
        ctx.seller_token.key,
        ctx.fee_vault.key,
        ctx.buyer_token.key,
        ctx.config.data.fee_bps,
        seller_bps,
        ctx.buyer.key,
    )
}

/// What a decision comes to, given the derived addresses.
pub open spec fn resolve_dispute_result(
    before: ResolveDispute,
    after: ResolveDispute,
    at: AddressSet,
    seller_bps: u16,
    res: Result<Settlement<DisputeResolved>, ProgramError>,
) -> bool {
    match (resolve_dispute_fault(before, at, seller_bps), res) {
        (Some(e), Err(r)) => r == e && after == before,
        (None, Ok(s)) => {
            &&& after == (ResolveDispute {
                escrow: Account {
                    data: resolved(before.escrow.data, seller_bps),
                    ..before.escrow
                },
                ..before
            })
            &&& s.actions@ == resolve_dispute_actions(before, seller_bps)
            &&& owned_bytes(s.signer_seeds@) == before.escrow.data.signer_seeds()
            &&& s.event == (DisputeResolved { escrow: before.escrow.key, seller_bps })
        },
        _ => false,
    }
}

/// Decides a dispute, given the derived addresses: `seller_bps` of the amount
/// go to the seller, less the platform fee on that part, and the rest goes back
/// to the buyer.
pub fn resolve_dispute_at(at: &Addresses, ctx: &mut ResolveDispute, seller_bps: u16) -> (res: Result<
    Settlement<DisputeResolved>,
    ProgramError,
>)
    ensures
        resolve_dispute_result(*old(ctx), *final(ctx), at@, seller_bps, res),
{
    if let Some(e) = ctx.check(at) {
        return Err(e);
    }
    if ctx.escrow.data.status != EscrowStatus::Disputed {
        return Err(ProgramError::Escrow(EscrowError::InvalidStatus));
    }
    if seller_bps as u64 > BPS_DENOMINATOR {
        return Err(ProgramError::Escrow(EscrowError::InvalidBps));
    }
    let amount: u64 = ctx.escrow.data.amount;
    let gross: u64 = compute_share(amount, seller_bps);
    proof {
        lemma_share_bounds(amount, seller_bps, seller_bps);
    }
    let buyer_share: u64 = amount - gross;
    let split = match split_fee(gross, ctx.config.data.fee_bps) {
        Ok(split) => split,
        Err(e) => return Err(e),
    };
    let escrow = &ctx.escrow.key;
    let vault = &ctx.vault.key;
    let mut actions: Vec<Action> = Vec::new();
    pay_if_any(&mut actions, escrow, vault, &ctx.seller_token.key, split.net);
    pay_if_any(&mut actions, escrow, vault, &ctx.fee_vault.key, split.fee);
    pay_if_any(&mut actions, escrow, vault, &ctx.buyer_token.key, buyer_share);
    close(&mut actions, escrow, vault, &ctx.buyer.key);
    assert(actions@ =~= resolve_dispute_actions(*old(ctx), seller_bps));
    let seeds = signer_seeds(&ctx.escrow.data);
    ctx.escrow.data.status = if seller_bps == 0 {
        EscrowStatus::Refunded
    } else if seller_bps as u64 == BPS_DENOMINATOR {
        EscrowStatus::Released
    } else {
        EscrowStatus::Split
    };
    Ok(
        Settlement {
            actions,
            signer_seeds: seeds,
            event: DisputeResolved { escrow: ctx.escrow.key, seller_bps },
        },
    )
}

/// Decides a dispute.
pub fn resolve_dispute(
    program_id: &Pubkey,
    ctx: &mut ResolveDispute,
    seller_bps: u16,
) -> (res: Result<Settlement<DisputeResolved>, ProgramError>)
    ensures
        resolve_dispute_result(
            *old(ctx),
            *final(ctx),
            settlement_addresses(*program_id, old(ctx).config, old(ctx).escrow),
            seller_bps,
            res,
        ),
{
    let at = derive_settlement_addresses(program_id, &ctx.config, &ctx.escrow);
    resolve_dispute_at(&at, ctx, seller_bps)
}

/// The accounts by which a dispute is opened.
#[derive(Clone, Copy, Debug, PartialEq, Eq)]
pub struct OpenDispute {
    pub escrow: Account<Escrow>,
    /// The buyer or the seller.
    pub party: AccountInfo,
}

impl OpenDispute {
    /// What is wrong with the accounts, the first violation first.
    pub open spec fn fault(self, address: Option<Seq<u8>>) -> Option<ProgramError> {
        or(
            account_rule(self.party.is_signer, AccountError::AccountNotSigner),
            escrow_fault(self.escrow, address),
        )
    }

    /// Finds what is wrong with the accounts.
    pub fn check(&self, address: &Option<Pubkey>) -> (fault: Option<ProgramError>)
        ensures
            fault == self.fault(address_bytes(*address)),
    {
        if !self.party.is_signer {
            return Some(ProgramError::Account(AccountError::AccountNotSigner));
        }
        check_escrow(&self.escrow, address)
    }
}

/// Why a dispute is refused, if it is.
pub open spec fn open_dispute_fault(
    ctx: OpenDispute,
    address: Option<Seq<u8>>,
    now: i64,
) -> Option<ProgramError> {
    let escrow = ctx.escrow.data;
    let party = ctx.party.key;
    let deadline = escrow.review_deadline();
    let f = ctx.fault(address);
    let f = or(f, rule(escrow.status is Delivered, EscrowError::InvalidStatus));
    let f = or(
        f,
        rule(party == escrow.buyer || party == escrow.seller, EscrowError::Unauthorized),
    );
    let f = or(f, rule(i64::MIN <= deadline <= i64::MAX, EscrowError::MathOverflow));
    or(f, rule(now < deadline, EscrowError::TooLateForDispute))
}

/// What the opening of a dispute comes to, given the derived address.
pub open spec fn open_dispute_result(
    before: OpenDispute,
    after: OpenDispute,
    address: Option<Seq<u8>>,
    now: i64,
    res: Result<DisputeOpened, ProgramError>,
) -> bool {
    match open_dispute_fault(before, address, now) {
        Some(e) => res == Err::<DisputeOpened, ProgramError>(e) && after == before,
        None => {
            &&& res == Ok::<DisputeOpened, ProgramError>(
                DisputeOpened { escrow: before.escrow.key, opened_by: before.party.key },
            )
            &&& after == (OpenDispute {
                escrow: Account {
                    data: Escrow { status: EscrowStatus::Disputed, ..before.escrow.data },
                    ..before.escrow
                },
                ..before
            })
        },
    }
}

/// Opens a dispute, given the derived address: a party to a delivered deal may
/// until the review period is over.
pub fn open_dispute_at(address: &Option<Pubkey>, ctx: &mut OpenDispute, now: i64) -> (res: Result<
    DisputeOpened,
    ProgramError,
>)
    ensures
        open_dispute_result(*old(ctx), *final(ctx), address_bytes(*address), now, res),
{
    if let Some(e) = ctx.check(address) {
        return Err(e);
    }
    if ctx.escrow.data.status != EscrowStatus::Delivered {
        return Err(ProgramError::Escrow(EscrowError::InvalidStatus));
    }
    let caller: Pubkey = ctx.party.key;
    if caller != ctx.escrow.data.buyer && caller != ctx.escrow.data.seller {
        return Err(ProgramError::Escrow(EscrowError::Unauthorized));
    }
    let deadline: i64 = match ctx.escrow.data.delivered_at.checked_add(
        ctx.escrow.data.review_period,
    ) {
        Some(deadline) => deadline,
        None => return Err(ProgramError::Escrow(EscrowError::MathOverflow)),
    };
    if now >= deadline {
        return Err(ProgramError::Escrow(EscrowError::TooLateForDispute));
    }
    ctx.escrow.data.status = EscrowStatus::Disputed;
    Ok(DisputeOpened { escrow: ctx.escrow.key, opened_by: caller })
}

/// Opens a dispute.
pub fn open_dispute(program_id: &Pubkey, ctx: &mut OpenDispute, now: i64) -> (res: Result<
    DisputeOpened,
    ProgramError,
>)
    ensures
        open_dispute_result(
            *old(ctx),
            *final(ctx),
            program_address(old(ctx).escrow.data.signer_seeds(), program_id@),
            now,
            res,
        ),
{
    let address = escrow_address(program_id, &ctx.escrow.data);
    open_dispute_at(&address, ctx, now)
}

} // verus!

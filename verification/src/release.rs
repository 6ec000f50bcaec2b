//! Releases to the seller: on the buyer's approval or after the review period.
use vstd::prelude::*;

use crate::accounts::{
    account_rule, all_distinct, check_escrow, check_token, check_vault, escrow_fault,
    is_token_program, or, rule, token_fault, token_program_fault, vault_fault, Account,
    AccountInfo, TokenAccount,
};
use crate::action::{Action, Transfer};
use crate::address::{
    derive_settlement_addresses, owned_bytes, settlement_addresses, signer_seeds, stands_at,
    AddressSet, Addresses,
};
use crate::error::{AccountError, EscrowError, ProgramError};
use crate::event::{ReleaseReason, Released};
use crate::payout::{payout_actions, payout_to_seller, Settlement};
use crate::pubkey::Pubkey;
use crate::shares::share;
use crate::state::{Config, Escrow, EscrowStatus};

verus! {

/// The accounts by which a buyer approves.
#[derive(Clone, Copy, Debug, PartialEq, Eq)]
pub struct ApproveAndRelease {
    pub config: Account<Config>,
    pub escrow: Account<Escrow>,
    pub vault: Account<TokenAccount>,
    /// The buyer, who alone approves, and gets the vault's rent.
    pub buyer: AccountInfo,
    pub seller: Pubkey,
    pub buyer_token: Account<TokenAccount>,
    pub seller_token: Account<TokenAccount>,
    pub fee_vault: Account<TokenAccount>,
    pub token_program: Pubkey,
}

impl ApproveAndRelease {
    /// The accounts that are written.
    pub open spec fn written(self) -> Seq<Pubkey> {
        seq![
            self.escrow.key,
            self.vault.key,
            self.buyer_token.key,
            self.seller_token.key,
            self.fee_vault.key,
        ]
    }

    /// What is wrong with the accounts, the first violation first.
    pub open spec fn fault(self, at: AddressSet) -> Option<ProgramError> {
        let config = self.config.data;
        let escrow = self.escrow.data;
        let f = account_rule(self.buyer.is_signer, AccountError::AccountNotSigner);
        let f = or(f, token_program_fault(self.token_program));
        let f = or(
            f,
            account_rule(
                self.written().no_duplicates(),
                AccountError::ConstraintDuplicateMutableAccount,
            ),
        );
        let f = or(
            f,
            account_rule(at.config == Some(self.config.key@), AccountError::ConstraintSeeds),
        );
        let f = or(f, rule(config.fee_vault == self.fee_vault.key, EscrowError::WrongFeeVault));
        let f = or(f, escrow_fault(self.escrow, at.escrow));
        let f = or(f, rule(escrow.buyer == self.buyer.key, EscrowError::Unauthorized));
        let f = or(f, rule(escrow.seller == self.seller, EscrowError::Unauthorized));
        let f = or(f, vault_fault(self.vault, at.vault, self.escrow.key));
        let f = or(f, account_rule(self.buyer.is_writable, AccountError::ConstraintMut));
        let f = or(f, token_fault(self.buyer_token, self.buyer.key, config.usdc_mint));
        let f = or(f, token_fault(self.seller_token, self.seller, config.usdc_mint));
        or(f, account_rule(self.fee_vault.is_writable, AccountError::ConstraintMut))
    }

    /// Finds what is wrong with the accounts.
    pub fn check(&self, at: &Addresses) -> (fault: Option<ProgramError>)
        ensures
            fault == self.fault(at@),
    {
        if !self.buyer.is_signer {
            return Some(ProgramError::Account(AccountError::AccountNotSigner));
        }
        if !is_token_program(&self.token_program) {
            return Some(ProgramError::Account(AccountError::InvalidProgramId));
        }
        let written: [Pubkey; 5] = [
            self.escrow.key,
            self.vault.key,
            self.buyer_token.key,
            self.seller_token.key,
            self.fee_vault.key,
        ];
        assert(written@ =~= self.written());
        if !all_distinct(written.as_slice()) {
            return Some(ProgramError::Account(AccountError::ConstraintDuplicateMutableAccount));
        }
        if !stands_at(&self.config.key, &at.config) {
            return Some(ProgramError::Account(AccountError::ConstraintSeeds));
        }
        if self.config.data.fee_vault != self.fee_vault.key {
            return Some(ProgramError::Escrow(EscrowError::WrongFeeVault));
        }
        if let Some(e) = check_escrow(&self.escrow, &at.escrow) {
            return Some(e);
        }
        if self.escrow.data.buyer != self.buyer.key {
            return Some(ProgramError::Escrow(EscrowError::Unauthorized));
        }
        if self.escrow.data.seller != self.seller {
            return Some(ProgramError::Escrow(EscrowError::Unauthorized));
        }
        if let Some(e) = check_vault(&self.vault, &at.vault, &self.escrow.key) {
            return Some(e);
        }
        if !self.buyer.is_writable {
            return Some(ProgramError::Account(AccountError::ConstraintMut));
        }
        let mint = &self.config.data.usdc_mint;
        if let Some(e) = check_token(&self.buyer_token, &self.buyer.key, mint) {
            return Some(e);
        }
        if let Some(e) = check_token(&self.seller_token, &self.seller, mint) {
            return Some(e);
        }
        if !self.fee_vault.is_writable {
            return Some(ProgramError::Account(AccountError::ConstraintMut));
        }
        None
    }
}

/// Why an approval is refused, if it is.
pub open spec fn approve_and_release_fault(ctx: ApproveAndRelease, at: AddressSet) -> Option<
    ProgramError,
> {
    let escrow = ctx.escrow.data;
    let f = ctx.fault(at);
    let f = or(f, rule(escrow.status is Delivered, EscrowError::InvalidStatus));
    or(
        f,
        rule(share(escrow.amount, ctx.config.data.fee_bps) <= escrow.amount, EscrowError::MathOverflow),
    )
}

/// The tip, from the buyer straight to the seller, left out where there is none.
pub open spec fn tip_actions(ctx: ApproveAndRelease, tip_amount: u64) -> Seq<Action> {
    if tip_amount > 0 {
        seq![
            Action::Transfer(
                Transfer {
                    from: ctx.buyer_token.key,
                    to: ctx.seller_token.key,
                    authority: ctx.buyer.key,
                    amount: tip_amount,
                },
            ),
        ]
    } else {
        seq![]
    }
}

/// What an approval has the ledger do: the tip, then the payout.
pub open spec fn approve_and_release_actions(ctx: ApproveAndRelease, tip_amount: u64) -> Seq<
    Action,
> {
    tip_actions(ctx, tip_amount) + payout_actions(
        ctx.escrow,
        ctx.vault.key,
        ctx.seller_token.key,
        ctx.fee_vault.key,
        ctx.config.data.fee_bps,
        ctx.buyer.key,
    )
}

/// The deal after an approval: released, with the tip noted if there is one.
pub open spec fn approved(escrow: Escrow, tip_amount: u64) -> Escrow {
    Escrow {
        status: EscrowStatus::Released,
        tip: if tip_amount > 0 {
            tip_amount
        } else {
            escrow.tip
        },
        ..escrow
    }
}

/// What an approval comes to, given the derived addresses.
pub open spec fn approve_and_release_result(
    before: ApproveAndRelease,
    after: ApproveAndRelease,
    at: AddressSet,
    tip_amount: u64,
    res: Result<Settlement<Released>, ProgramError>,
) -> bool {
    match (approve_and_release_fault(before, at), res) {
        (Some(e), Err(r)) => r == e && after == before,
        (None, Ok(s)) => {
            &&& after == (ApproveAndRelease {
                escrow: Account {
                    data: approved(before.escrow.data, tip_amount),
                    ..before.escrow
                },
                ..before
            })
            &&& s.actions@ == approve_and_release_actions(before, tip_amount)
            &&& owned_bytes(s.signer_seeds@) == before.escrow.data.signer_seeds()
            &&& s.event == (Released {
                escrow: before.escrow.key,
                reason: ReleaseReason::BuyerApproved,
                tip: tip_amount,
            })
        },
        _ => false,
    }
}

/// Approves a delivered deal, given the derived addresses: the tip goes to the
/// seller in full, and the deal is paid out at once.
pub fn approve_and_release_at(
    at: &Addresses,
    ctx: &mut ApproveAndRelease,
    tip_amount: u64,
) -> (res: Result<Settlement<Released>, ProgramError>)
    ensures
        approve_and_release_result(*old(ctx), *final(ctx), at@, tip_amount, res),
{
    if let Some(e) = ctx.check(at) {
        return Err(e);
    }
    if ctx.escrow.data.status != EscrowStatus::Delivered {
        return Err(ProgramError::Escrow(EscrowError::InvalidStatus));
    }
    let mut actions: Vec<Action> = Vec::new();
    if tip_amount > 0 {
        actions.push(
            Action::Transfer(
                Transfer {
                    from: ctx.buyer_token.key,
                    to: ctx.seller_token.key,
                    authority: ctx.buyer.key,
                    amount: tip_amount,
                },
            ),
        );
    }
    let mut payout = match payout_to_seller(
        &ctx.escrow,
        &ctx.vault,
        &ctx.seller_token,
        &ctx.fee_vault,
        &ctx.config,
        &ctx.buyer.key,
    ) {
        Ok(payout) => payout,
        Err(e) => return Err(e),
    };
    actions.append(&mut payout);
    assert(actions@ =~= approve_and_release_actions(*old(ctx), tip_amount));
    let seeds = signer_seeds(&ctx.escrow.data);
    if tip_amount > 0 {
        ctx.escrow.data.tip = tip_amount;
    }
    ctx.escrow.data.status = EscrowStatus::Released;
    Ok(
        Settlement {
            actions,
            signer_seeds: seeds,
            event: Released {
                escrow: ctx.escrow.key,
                reason: ReleaseReason::BuyerApproved,
                tip: tip_amount,
            },
        },
    )
}

/// Approves a delivered deal.
pub fn approve_and_release(
    program_id: &Pubkey,
    ctx: &mut ApproveAndRelease,
    tip_amount: u64,
) -> (res: Result<Settlement<Released>, ProgramError>)
    ensures
        approve_and_release_result(
            *old(ctx),
            *final(ctx),
            settlement_addresses(*program_id, old(ctx).config, old(ctx).escrow),
            tip_amount,
            res,
        ),
{
    let at = derive_settlement_addresses(program_id, &ctx.config, &ctx.escrow);
    approve_and_release_at(&at, ctx, tip_amount)
}

/// The accounts by which anyone releases a deal after the review period.
#[derive(Clone, Copy, Debug, PartialEq, Eq)]
pub struct ReleaseAfterTimeout {
    pub config: Account<Config>,
    pub escrow: Account<Escrow>,
    pub vault: Account<TokenAccount>,
    /// Gets the vault's rent.
    pub buyer: AccountInfo,
    pub seller: Pubkey,
    pub seller_token: Account<TokenAccount>,
    pub fee_vault: Account<TokenAccount>,
    pub token_program: Pubkey,
}

impl ReleaseAfterTimeout {
    /// The accounts that are written.
    pub open spec fn written(self) -> Seq<Pubkey> {
        seq![self.escrow.key, self.vault.key, self.seller_token.key, self.fee_vault.key]
    }

    /// What is wrong with the accounts, the first violation first.
    pub open spec fn fault(self, at: AddressSet) -> Option<ProgramError> {
        let config = self.config.data;
        let escrow = self.escrow.data;
        let f = token_program_fault(self.token_program);
        let f = or(
            f,
            account_rule(
                self.written().no_duplicates(),
                AccountError::ConstraintDuplicateMutableAccount,
            ),
        );
        let f = or(
            f,
            account_rule(at.config == Some(self.config.key@), AccountError::ConstraintSeeds),
        );
        let f = or(f, rule(config.fee_vault == self.fee_vault.key, EscrowError::WrongFeeVault));
        let f = or(f, escrow_fault(self.escrow, at.escrow));
        let f = or(f, rule(escrow.buyer == self.buyer.key, EscrowError::Unauthorized));
        let f = or(f, rule(escrow.seller == self.seller, EscrowError::Unauthorized));
        let f = or(f, vault_fault(self.vault, at.vault, self.escrow.key));
        let f = or(f, account_rule(self.buyer.is_writable, AccountError::ConstraintMut));
        let f = or(f, token_fault(self.seller_token, self.seller, config.usdc_mint));
        or(f, account_rule(self.fee_vault.is_writable, AccountError::ConstraintMut))
    }

    /// Finds what is wrong with the accounts.
    pub fn check(&self, at: &Addresses) -> (fault: Option<ProgramError>)
        ensures
            fault == self.fault(at@),
    {
        if !is_token_program(&self.token_program) {
            return Some(ProgramError::Account(AccountError::InvalidProgramId));
        }
        let written: [Pubkey; 4] = [
            self.escrow.key,
            self.vault.key,
            self.seller_token.key,
            self.fee_vault.key,
        ];
        assert(written@ =~= self.written());
        if !all_distinct(written.as_slice()) {
            return Some(ProgramError::Account(AccountError::ConstraintDuplicateMutableAccount));
        }
        if !stands_at(&self.config.key, &at.config) {
            return Some(ProgramError::Account(AccountError::ConstraintSeeds));
        }
        if self.config.data.fee_vault != self.fee_vault.key {
            return Some(ProgramError::Escrow(EscrowError::WrongFeeVault));
        }
        if let Some(e) = check_escrow(&self.escrow, &at.escrow) {
            return Some(e);
        }
        if self.escrow.data.buyer != self.buyer.key {
            return Some(ProgramError::Escrow(EscrowError::Unauthorized));
        }
        if self.escrow.data.seller != self.seller {
            return Some(ProgramError::Escrow(EscrowError::Unauthorized));
        }
        if let Some(e) = check_vault(&self.vault, &at.vault, &self.escrow.key) {
            return Some(e);
        }
        if !self.buyer.is_writable {
            return Some(ProgramError::Account(AccountError::ConstraintMut));
        }
        let mint = &self.config.data.usdc_mint;
        if let Some(e) = check_token(&self.seller_token, &self.seller, mint) {
            return Some(e);
        }
        if !self.fee_vault.is_writable {
            return Some(ProgramError::Account(AccountError::ConstraintMut));
        }
        None
    }
}

/// Why a release after the review period is refused, if it is.
pub open spec fn release_after_timeout_fault(
    ctx: ReleaseAfterTimeout,
    at: AddressSet,
    now: i64,
) -> Option<ProgramError> {
    let escrow = ctx.escrow.data;
    let deadline = escrow.review_deadline();
    let f = ctx.fault(at);
    let f = or(f, rule(escrow.status is Delivered, EscrowError::InvalidStatus));
    let f = or(f, rule(i64::MIN <= deadline <= i64::MAX, EscrowError::MathOverflow));
    let f = or(f, rule(now >= deadline, EscrowError::ReviewPeriodNotOver));
    or(
        f,
        rule(share(escrow.amount, ctx.config.data.fee_bps) <= escrow.amount, EscrowError::MathOverflow),
    )
}

/// What a release after the review period has the ledger do.
pub open spec fn release_after_timeout_actions(ctx: ReleaseAfterTimeout) -> Seq<Action> {
    payout_actions(
        ctx.escrow,
        ctx.vault.key,
        ctx.seller_token.key,
        ctx.fee_vault.key,
        ctx.config.data.fee_bps,
        ctx.buyer.key,
    )
}

/// What a release after the review period comes to, given the derived addresses.
pub open spec fn release_after_timeout_result(
    before: ReleaseAfterTimeout,
    after: ReleaseAfterTimeout,
    at: AddressSet,
    now: i64,
    res: Result<Settlement<Released>, ProgramError>,
) -> bool {
    match (release_after_timeout_fault(before, at, now), res) {
        (Some(e), Err(r)) => r == e && after == before,
        (None, Ok(s)) => {
            &&& after == (ReleaseAfterTimeout {
                escrow: Account {
                    data: Escrow { status: EscrowStatus::Released, ..before.escrow.data },
                    ..before.escrow
                },
                ..before
            })
            &&& s.actions@ == release_after_timeout_actions(before)
            &&& owned_bytes(s.signer_seeds@) == before.escrow.data.signer_seeds()
            &&& s.event == (Released {
                escrow: before.escrow.key,
                reason: ReleaseReason::Timeout,
                tip: 0,
            })
        },
        _ => false,
    }
}

/// Pays out a delivered deal whose review period is over, given the derived
/// addresses. Nobody has to sign.
pub fn release_after_timeout_at(at: &Addresses, ctx: &mut ReleaseAfterTimeout, now: i64) -> (res:
    Result<Settlement<Released>, ProgramError>)
    ensures
        release_after_timeout_result(*old(ctx), *final(ctx), at@, now, res),
{
    if let Some(e) = ctx.check(at) {
        return Err(e);
    }
    if ctx.escrow.data.status != EscrowStatus::Delivered {
        return Err(ProgramError::Escrow(EscrowError::InvalidStatus));
    }
    let deadline: i64 = match ctx.escrow.data.delivered_at.checked_add(
        ctx.escrow.data.review_period,
    ) {
        Some(deadline) => deadline,
        None => return Err(ProgramError::Escrow(EscrowError::MathOverflow)),
    };
    if now < deadline {
        return Err(ProgramError::Escrow(EscrowError::ReviewPeriodNotOver));
    }
    let actions = match payout_to_seller(
        &ctx.escrow,
        &ctx.vault,
        &ctx.seller_token,
        &ctx.fee_vault,
        &ctx.config,
        &ctx.buyer.key,
    ) {
        Ok(actions) => actions,
        Err(e) => return Err(e),
    };
    let seeds = signer_seeds(&ctx.escrow.data);
    ctx.escrow.data.status = EscrowStatus::Released;
    Ok(
        Settlement {
            actions,
            signer_seeds: seeds,
            event: Released { escrow: ctx.escrow.key, reason: ReleaseReason::Timeout, tip: 0 },
        },
    )
}

/// Pays out a delivered deal whose review period is over.
pub fn release_after_timeout(
    program_id: &Pubkey,
    ctx: &mut ReleaseAfterTimeout,
    now: i64,
) -> (res: Result<Settlement<Released>, ProgramError>)
    ensures
        release_after_timeout_result(
            *old(ctx),
            *final(ctx),
            settlement_addresses(*program_id, old(ctx).config, old(ctx).escrow),
            now,
            res,
        ),
{
    let at = derive_settlement_addresses(program_id, &ctx.config, &ctx.escrow);
    release_after_timeout_at(&at, ctx, now)
}

} // verus!

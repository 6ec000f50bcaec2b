//! The refund of work that was not delivered in time.
use vstd::prelude::*;

use crate::accounts::{
    account_rule, all_distinct, check_escrow, check_token, check_vault, escrow_fault,
    is_token_program, or, rule, token_fault, token_program_fault, vault_fault, Account,
    AccountInfo, TokenAccount,
};
use crate::action::Action;
use crate::address::{
    derive_settlement_addresses, owned_bytes, settlement_addresses, signer_seeds, stands_at,
    AddressSet, Addresses,
};
use crate::error::{AccountError, EscrowError, ProgramError};
use crate::event::{RefundReason, Refunded};
use crate::payout::{refund_actions, refund_to_buyer, Settlement};
use crate::pubkey::Pubkey;
use crate::state::{Config, Escrow, EscrowStatus};

verus! {

/// The accounts by which anyone refunds an undelivered deal.
#[derive(Clone, Copy, Debug, PartialEq, Eq)]
pub struct RefundUndelivered {
    pub config: Account<Config>,
    pub escrow: Account<Escrow>,
    pub vault: Account<TokenAccount>,
    /// Gets the vault's rent.
    pub buyer: AccountInfo,
    pub buyer_token: Account<TokenAccount>,
    pub token_program: Pubkey,
}

impl RefundUndelivered {
    /// The accounts that are written.
    pub open spec fn written(self) -> Seq<Pubkey> {
        seq![self.escrow.key, self.vault.key, self.buyer_token.key]
    }

    /// What is wrong with the accounts, the first violation first.
    pub open spec fn fault(self, at: AddressSet) -> Option<ProgramError> {
        let f = token_program_fault(self.token_program);
        let f = or(
            f,
            account_rule(
                self.written().no_duplicates(),
                AccountError::ConstraintDuplicateMutableAccount,
            ),
        );
        let f = or(
            f,
            account_rule(at.config == Some(self.config.key@), AccountError::ConstraintSeeds),
        );
        let f = or(f, escrow_fault(self.escrow, at.escrow));
        let f = or(f, rule(self.escrow.data.buyer == self.buyer.key, EscrowError::Unauthorized));
        let f = or(f, vault_fault(self.vault, at.vault, self.escrow.key));
        let f = or(f, account_rule(self.buyer.is_writable, AccountError::ConstraintMut));
        or(f, token_fault(self.buyer_token, self.buyer.key, self.config.data.usdc_mint))
    }

    /// Finds what is wrong with the accounts.
    pub fn check(&self, at: &Addresses) -> (fault: Option<ProgramError>)
        ensures
            fault == self.fault(at@),
    {
        if !is_token_program(&self.token_program) {
            return Some(ProgramError::Account(AccountError::InvalidProgramId));
        }
        let written: [Pubkey; 3] = [self.escrow.key, self.vault.key, self.buyer_token.key];
        assert(written@ =~= self.written());
        if !all_distinct(written.as_slice()) {
            return Some(ProgramError::Account(AccountError::ConstraintDuplicateMutableAccount));
        }
        if !stands_at(&self.config.key, &at.config) {
            return Some(ProgramError::Account(AccountError::ConstraintSeeds));
        }
        if let Some(e) = check_escrow(&self.escrow, &at.escrow) {
            return Some(e);
        }
        if self.escrow.data.buyer != self.buyer.key {
            return Some(ProgramError::Escrow(EscrowError::Unauthorized));
        }
        if let Some(e) = check_vault(&self.vault, &at.vault, &self.escrow.key) {
            return Some(e);
        }
        if !self.buyer.is_writable {
            return Some(ProgramError::Account(AccountError::ConstraintMut));
        }
        check_token(&self.buyer_token, &self.buyer.key, &self.config.data.usdc_mint)
    }
}

/// Why a refund is refused, if it is.
pub open spec fn refund_undelivered_fault(
    ctx: RefundUndelivered,
    at: AddressSet,
    now: i64,
) -> Option<ProgramError> {
    let escrow = ctx.escrow.data;
    let deadline = escrow.delivery_deadline(ctx.config.data);
    let f = ctx.fault(at);
    let f = or(f, rule(escrow.status is Funded, EscrowError::InvalidStatus));
    let f = or(f, rule(i64::MIN <= deadline <= i64::MAX, EscrowError::MathOverflow));
    or(f, rule(now >= deadline, EscrowError::DeliveryDeadlineNotOver))
}

/// What a refund has the ledger do.
pub open spec fn refund_undelivered_actions(ctx: RefundUndelivered) -> Seq<Action> {
    refund_actions(ctx.escrow, ctx.vault.key, ctx.buyer_token.key, ctx.buyer.key)
}

/// What a refund comes to, given the derived addresses.
pub open spec fn refund_undelivered_result(
    before: RefundUndelivered,
    after: RefundUndelivered,
    at: AddressSet,
    now: i64,
    res: Result<Settlement<Refunded>, ProgramError>,
) -> bool {
    match (refund_undelivered_fault(before, at, now), res) {
        (Some(e), Err(r)) => r == e && after == before,
        (None, Ok(s)) => {
            &&& after == (RefundUndelivered {
                escrow: Account {
                    data: Escrow { status: EscrowStatus::Refunded, ..before.escrow.data },
                    ..before.escrow
                },
                ..before
            })
            &&& s.actions@ == refund_undelivered_actions(before)
            &&& owned_bytes(s.signer_seeds@) == before.escrow.data.signer_seeds()
            &&& s.event == (Refunded {
                escrow: before.escrow.key,
                reason: RefundReason::NotDelivered,
            })
        },
        _ => false,
    }
}

/// Pays an undelivered deal back to its buyer once the delivery deadline is
/// over, given the derived addresses. Nobody has to sign.
pub fn refund_undelivered_at(at: &Addresses, ctx: &mut RefundUndelivered, now: i64) -> (res: Result<
    Settlement<Refunded>,
    ProgramError,
>)
    ensures
        refund_undelivered_result(*old(ctx), *final(ctx), at@, now, res),
{
    if let Some(e) = ctx.check(at) {
        return Err(e);
    }
    if ctx.escrow.data.status != EscrowStatus::Funded {
        return Err(ProgramError::Escrow(EscrowError::InvalidStatus));
    }
    let deadline: i64 = match ctx.escrow.data.created_at.checked_add(
        ctx.config.data.delivery_deadline,
    ) {
        Some(deadline) => deadline,
        None => return Err(ProgramError::Escrow(EscrowError::MathOverflow)),
    };
    if now < deadline {
        return Err(ProgramError::Escrow(EscrowError::DeliveryDeadlineNotOver));
    }
    let actions = refund_to_buyer(&ctx.escrow, &ctx.vault, &ctx.buyer_token, &ctx.buyer.key);
    let seeds = signer_seeds(&ctx.escrow.data);
    ctx.escrow.data.status = EscrowStatus::Refunded;
    Ok(
        Settlement {
            actions,
            signer_seeds: seeds,
            event: Refunded { escrow: ctx.escrow.key, reason: RefundReason::NotDelivered },
        },
    )
}

/// Pays an undelivered deal back to its buyer once the delivery deadline is
/// over.
pub fn refund_undelivered(program_id: &Pubkey, ctx: &mut RefundUndelivered, now: i64) -> (res:
    Result<Settlement<Refunded>, ProgramError>)
    ensures
        refund_undelivered_result(
            *old(ctx),
            *final(ctx),
            settlement_addresses(*program_id, old(ctx).config, old(ctx).escrow),
            now,
            res,
        ),
{
    let at = derive_settlement_addresses(program_id, &ctx.config, &ctx.escrow);
    refund_undelivered_at(&at, ctx, now)
}

} // verus!

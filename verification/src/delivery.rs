//! The delivery of ordered work.
use vstd::prelude::*;

use crate::accounts::{
    account_rule, check_escrow, escrow_fault, or, rule, Account, AccountInfo,
};
use crate::address::{address_bytes, escrow_address, program_address};
use crate::error::{AccountError, EscrowError, ProgramError};
use crate::event::Delivered;
use crate::pubkey::Pubkey;
use crate::state::{Escrow, EscrowStatus};

verus! {

/// The accounts by which a seller delivers.
#[derive(Clone, Copy, Debug, PartialEq, Eq)]
pub struct MarkDelivered {
    pub escrow: Account<Escrow>,
    pub seller: AccountInfo,
}

impl MarkDelivered {
    /// What is wrong with the accounts, the first violation first.
    pub open spec fn fault(self, address: Option<Seq<u8>>) -> Option<ProgramError> {
        let f = account_rule(self.seller.is_signer, AccountError::AccountNotSigner);
        let f = or(f, escrow_fault(self.escrow, address));
        or(f, rule(self.escrow.data.seller == self.seller.key, EscrowError::Unauthorized))
    }

    /// Finds what is wrong with the accounts.
    pub fn check(&self, address: &Option<Pubkey>) -> (fault: Option<ProgramError>)
        ensures
            fault == self.fault(address_bytes(*address)),
    {
        if !self.seller.is_signer {
            return Some(ProgramError::Account(AccountError::AccountNotSigner));
        }
        if let Some(e) = check_escrow(&self.escrow, address) {
            return Some(e);
        }
        if self.escrow.data.seller != self.seller.key {
            return Some(ProgramError::Escrow(EscrowError::Unauthorized));
        }
        None
    }
}

/// Why a delivery is refused, if it is.
pub open spec fn mark_delivered_fault(ctx: MarkDelivered, address: Option<Seq<u8>>) -> Option<
    ProgramError,
> {
    or(
        ctx.fault(address),
        rule(ctx.escrow.data.status is Funded, EscrowError::InvalidStatus),
    )
}

/// What a delivery comes to, given the derived address.
pub open spec fn mark_delivered_result(
    before: MarkDelivered,
    after: MarkDelivered,
    address: Option<Seq<u8>>,
    now: i64,
    res: Result<Delivered, ProgramError>,
) -> bool {
    match mark_delivered_fault(before, address) {
        Some(e) => res == Err::<Delivered, ProgramError>(e) && after == before,
        None => {
            &&& res == Ok::<Delivered, ProgramError>(
                Delivered { escrow: before.escrow.key, delivered_at: now },
            )
            &&& after == (MarkDelivered {
                escrow: Account {
                    data: Escrow {
                        status: EscrowStatus::Delivered,
                        delivered_at: now,
                        ..before.escrow.data
                    },
                    ..before.escrow
                },
                ..before
            })
        },
    }
}

/// Marks a funded deal delivered, given the derived address. The review period
/// starts now.
pub fn mark_delivered_at(address: &Option<Pubkey>, ctx: &mut MarkDelivered, now: i64) -> (res:
    Result<Delivered, ProgramError>)
    ensures
        mark_delivered_result(*old(ctx), *final(ctx), address_bytes(*address), now, res),
{
    if let Some(e) = ctx.check(address) {
        return Err(e);
    }
    if ctx.escrow.data.status != EscrowStatus::Funded {
        return Err(ProgramError::Escrow(EscrowError::InvalidStatus));
    }
    ctx.escrow.data.status = EscrowStatus::Delivered;
    ctx.escrow.data.delivered_at = now;
    Ok(Delivered { escrow: ctx.escrow.key, delivered_at: now })
}

/// Marks a funded deal delivered.
pub fn mark_delivered(program_id: &Pubkey, ctx: &mut MarkDelivered, now: i64) -> (res: Result<
    Delivered,
    ProgramError,
>)
    ensures
        mark_delivered_result(
            *old(ctx),
            *final(ctx),
            program_address(old(ctx).escrow.data.signer_seeds(), program_id@),
            now,
            res,
        ),
{
    let address = escrow_address(program_id, &ctx.escrow.data);
    mark_delivered_at(&address, ctx, now)
}

} // verus!

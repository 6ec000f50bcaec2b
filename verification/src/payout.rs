//! How a vault is paid out.
use vstd::prelude::*;

use crate::accounts::{Account, TokenAccount};
use crate::action::{
    inflow, lemma_flow_of_concat, lemma_flow_of_push, outflow, Action, CloseAccount, Transfer,
};
use crate::constants::BPS_DENOMINATOR;
use crate::error::{EscrowError, ProgramError};
use crate::pubkey::Pubkey;
use crate::shares::{lemma_share_bounds, share, split_fee};
use crate::state::{Config, Escrow};

verus! {

/// What the settlement of a deal has the ledger do, the seeds by which the deal
/// signs for it, and what it announces.
#[derive(Debug)]
pub struct Settlement<E> {
    pub actions: Vec<Action>,
    pub signer_seeds: Vec<Vec<u8>>,
    pub event: E,
}

/// A payment out of the vault that the deal signs for.
pub open spec fn vault_payment(escrow: Pubkey, vault: Pubkey, to: Pubkey, amount: int) -> Action {
    Action::SignedTransfer(
        Transfer { from: vault, to, authority: escrow, amount: amount as u64 },
    )
}

/// The same payment, left out where there is nothing to pay.
pub open spec fn vault_payment_if_any(
    escrow: Pubkey,
    vault: Pubkey,
    to: Pubkey,
    amount: int,
) -> Seq<Action> {
    if amount > 0 {
        seq![vault_payment(escrow, vault, to, amount)]
    } else {
        seq![]
    }
}

/// The closing of the vault, with its rent to `rent_destination`.
pub open spec fn vault_closing(escrow: Pubkey, vault: Pubkey, rent_destination: Pubkey) -> Action {
    Action::SignedClose(
        CloseAccount { account: vault, destination: rent_destination, authority: escrow },
    )
}

/// The whole amount to the seller, less the platform fee.
pub open spec fn payout_actions(
    escrow: Account<Escrow>,
    vault: Pubkey,
    seller_token: Pubkey,
    fee_vault: Pubkey,
    fee_bps: u16,
    rent_destination: Pubkey,
) -> Seq<Action> {
    let fee = share(escrow.data.amount, fee_bps);
    seq![vault_payment(escrow.key, vault, seller_token, escrow.data.amount - fee)]
        + vault_payment_if_any(escrow.key, vault, fee_vault, fee).push(
        vault_closing(escrow.key, vault, rent_destination),
    )
}

/// The whole amount back to the buyer.
pub open spec fn refund_actions(
    escrow: Account<Escrow>,
    vault: Pubkey,
    buyer_token: Pubkey,
    rent_destination: Pubkey,
) -> Seq<Action> {
    seq![
        vault_payment(escrow.key, vault, buyer_token, escrow.data.amount as int),
        vault_closing(escrow.key, vault, rent_destination),
    ]
}

/// The seller's share of the amount, less the platform fee on that share, to
/// the seller, and the rest back to the buyer.
pub open spec fn split_actions(
    escrow: Account<Escrow>,
    vault: Pubkey,
    seller_token: Pubkey,
    fee_vault: Pubkey,
    buyer_token: Pubkey,
    fee_bps: u16,
    seller_bps: u16,
    rent_destination: Pubkey,
) -> Seq<Action> {
    let gross = share(escrow.data.amount, seller_bps);
    let fee = share(gross as u64, fee_bps);
    (vault_payment_if_any(escrow.key, vault, seller_token, gross - fee) + vault_payment_if_any(
        escrow.key,
        vault,
        fee_vault,
        fee,
    ) + vault_payment_if_any(
        escrow.key,
        vault,
        buyer_token,
        escrow.data.amount - gross,
    )).push(vault_closing(escrow.key, vault, rent_destination))
}

/// A payment moves its amount.
proof fn lemma_payment_flow(
    escrow: Pubkey,
    vault: Pubkey,
    to: Pubkey,
    amount: int,
    account: Pubkey,
)
    requires
        0 <= amount <= u64::MAX,
    ensures
        outflow(vault_payment_if_any(escrow, vault, to, amount), account) == (if account == vault {
            amount
        } else {
            0
        }),
        inflow(vault_payment_if_any(escrow, vault, to, amount), account) == (if account == to {
            amount
        } else {
            0
        }),
{
    let actions = vault_payment_if_any(escrow, vault, to, amount);
    assert(outflow(Seq::empty(), account) == 0);
    assert(inflow(Seq::empty(), account) == 0);
    if amount > 0 {
        lemma_flow_of_push(Seq::empty(), vault_payment(escrow, vault, to, amount), account);
        assert(actions =~= Seq::empty().push(vault_payment(escrow, vault, to, amount)));
    } else {
        assert(actions =~= Seq::empty());
    }
}

/// A payout takes the whole amount out of the vault: the fee to the platform
/// and the rest to the seller.
pub proof fn lemma_payout_flows(
    escrow: Account<Escrow>,
    vault: Pubkey,
    seller_token: Pubkey,
    fee_vault: Pubkey,
    fee_bps: u16,
    rent_destination: Pubkey,
    account: Pubkey,
)
    requires
        share(escrow.data.amount, fee_bps) <= escrow.data.amount,
        seller_token != fee_vault,
    ensures
        ({
            let amount = escrow.data.amount;
            let fee = share(amount, fee_bps);
            let actions = payout_actions(
                escrow,
                vault,
                seller_token,
                fee_vault,
                fee_bps,
                rent_destination,
            );
            &&& outflow(actions, account) == (if account == vault {
                amount as int
            } else {
                0
            })
            &&& inflow(actions, account) == (if account == seller_token {
                amount - fee
            } else if account == fee_vault {
                fee
            } else {
                0
            })
        }),
{
    let amount = escrow.data.amount;
    let fee = share(amount, fee_bps);
    let first = seq![vault_payment(escrow.key, vault, seller_token, amount - fee)];
    let second = vault_payment_if_any(escrow.key, vault, fee_vault, fee);
    let last = vault_closing(escrow.key, vault, rent_destination);
    lemma_flow_of_push(Seq::empty(), first[0], account);
    assert(first =~= Seq::empty().push(first[0]));
    assert(outflow(Seq::empty(), account) == 0);
    assert(inflow(Seq::empty(), account) == 0);
    lemma_payment_flow(escrow.key, vault, fee_vault, fee, account);
    lemma_flow_of_push(second, last, account);
    lemma_flow_of_concat(first, second.push(last), account);
}

/// A refund takes the whole amount out of the vault, to the buyer.
pub proof fn lemma_refund_flows(
    escrow: Account<Escrow>,
    vault: Pubkey,
    buyer_token: Pubkey,
    rent_destination: Pubkey,
    account: Pubkey,
)
    ensures
        ({
            let actions = refund_actions(escrow, vault, buyer_token, rent_destination);
            &&& outflow(actions, account) == (if account == vault {
                escrow.data.amount as int
            } else {
                0
            })
            &&& inflow(actions, account) == (if account == buyer_token {
                escrow.data.amount as int
            } else {
                0
            })
        }),
{
    let actions = refund_actions(escrow, vault, buyer_token, rent_destination);
    let empty = Seq::<Action>::empty();
    lemma_flow_of_push(empty, actions[0], account);
    lemma_flow_of_push(empty.push(actions[0]), actions[1], account);
    assert(actions =~= empty.push(actions[0]).push(actions[1]));
}

/// A split takes the whole amount out of the vault: the fee on the seller's
/// share to the platform, the rest of that share to the seller and what is left
/// to the buyer.
pub proof fn lemma_split_flows(
    escrow: Account<Escrow>,
    vault: Pubkey,
    seller_token: Pubkey,
    fee_vault: Pubkey,
    buyer_token: Pubkey,
    fee_bps: u16,
    seller_bps: u16,
    rent_destination: Pubkey,
    account: Pubkey,
)
    requires
        seller_bps <= BPS_DENOMINATOR,
        share(share(escrow.data.amount, seller_bps) as u64, fee_bps) <= share(
            escrow.data.amount,
            seller_bps,
        ),
        seller_token != fee_vault,
        seller_token != buyer_token,
        buyer_token != fee_vault,
    ensures
        ({
            let amount = escrow.data.amount;
            let gross = share(amount, seller_bps);
            let fee = share(gross as u64, fee_bps);
            let actions = split_actions(
                escrow,
                vault,
                seller_token,
                fee_vault,
                buyer_token,
                fee_bps,
                seller_bps,
                rent_destination,
            );
            &&& outflow(actions, account) == (if account == vault {
                amount as int
            } else {
                0
            })
            &&& inflow(actions, account) == (if account == seller_token {
                gross - fee
            } else if account == fee_vault {
                fee
            } else if account == buyer_token {
                amount - gross
            } else {
                0
            })
        }),
{
    let amount = escrow.data.amount;
    let gross = share(amount, seller_bps);
    let fee = share(gross as u64, fee_bps);
    lemma_share_bounds(amount, seller_bps, seller_bps);
    let first = vault_payment_if_any(escrow.key, vault, seller_token, gross - fee);
    let second = vault_payment_if_any(escrow.key, vault, fee_vault, fee);
    let third = vault_payment_if_any(escrow.key, vault, buyer_token, amount - gross);
    let last = vault_closing(escrow.key, vault, rent_destination);
    lemma_payment_flow(escrow.key, vault, seller_token, gross - fee, account);
    lemma_payment_flow(escrow.key, vault, fee_vault, fee, account);
    lemma_payment_flow(escrow.key, vault, buyer_token, amount - gross, account);
    lemma_flow_of_concat(first, second, account);
    lemma_flow_of_concat(first + second, third, account);
    lemma_flow_of_push(first + second + third, last, account);
}

/// Pays a payment out of the vault.
fn pay(
    actions: &mut Vec<Action>,
    escrow: &Pubkey,
    vault: &Pubkey,
    to: &Pubkey,
    amount: u64,
)
    ensures
        final(actions)@ == old(actions)@.push(vault_payment(*escrow, *vault, *to, amount as int)),
{
    actions.push(
        Action::SignedTransfer(Transfer { from: *vault, to: *to, authority: *escrow, amount }),
    );
}

/// Pays a payment out of the vault where there is something to pay.
pub(crate) fn pay_if_any(
    actions: &mut Vec<Action>,
    escrow: &Pubkey,
    vault: &Pubkey,
    to: &Pubkey,
    amount: u64,
)
    ensures
        final(actions)@ == old(actions)@ + vault_payment_if_any(
            *escrow,
            *vault,
            *to,
            amount as int,
        ),
{
    if amount > 0 {
        pay(actions, escrow, vault, to, amount);
    }
    assert(actions@ =~= old(actions)@ + vault_payment_if_any(*escrow, *vault, *to, amount as int));
}

/// Closes the vault.
pub(crate) fn close(
    actions: &mut Vec<Action>,
    escrow: &Pubkey,
    vault: &Pubkey,
    rent_destination: &Pubkey,
)
    ensures
        final(actions)@ == old(actions)@.push(vault_closing(*escrow, *vault, *rent_destination)),
{
    actions.push(
        Action::SignedClose(
            CloseAccount { account: *vault, destination: *rent_destination, authority: *escrow },
        ),
    );
}

/// Pays a deal out to its seller: the amount less the platform fee, then the
/// fee if there is one, then the vault is closed. A fee above the amount is
/// refused.
pub fn payout_to_seller(
    escrow: &Account<Escrow>,
    vault: &Account<TokenAccount>,
    seller_token: &Account<TokenAccount>,
    fee_vault: &Account<TokenAccount>,
    config: &Account<Config>,
    rent_destination: &Pubkey,
) -> (res: Result<Vec<Action>, ProgramError>)
    ensures
        match res {
            Ok(actions) => {
                &&& share(escrow.data.amount, config.data.fee_bps) <= escrow.data.amount
                &&& actions@ == payout_actions(
                    *escrow,
                    vault.key,
                    seller_token.key,
                    fee_vault.key,
                    config.data.fee_bps,
                    *rent_destination,
                )
            },
            Err(e) => {
                &&& share(escrow.data.amount, config.data.fee_bps) > escrow.data.amount
                &&& e == ProgramError::Escrow(EscrowError::MathOverflow)
            },
        },
{
    let split = match split_fee(escrow.data.amount, config.data.fee_bps) {
        Ok(split) => split,
        Err(e) => return Err(e),
    };
    let mut actions: Vec<Action> = Vec::new();
    pay(&mut actions, &escrow.key, &vault.key, &seller_token.key, split.net);
    pay_if_any(&mut actions, &escrow.key, &vault.key, &fee_vault.key, split.fee);
    close(&mut actions, &escrow.key, &vault.key, rent_destination);
    assert(actions@ =~= payout_actions(
        *escrow,
        vault.key,
        seller_token.key,
        fee_vault.key,
        config.data.fee_bps,
        *rent_destination,
    ));
    Ok(actions)
}

/// Pays a deal back to its buyer: the whole amount, then the vault is closed.
pub fn refund_to_buyer(
    escrow: &Account<Escrow>,
    vault: &Account<TokenAccount>,
    buyer_token: &Account<TokenAccount>,
    rent_destination: &Pubkey,
) -> (actions: Vec<Action>)
    ensures
        actions@ == refund_actions(*escrow, vault.key, buyer_token.key, *rent_destination),
{
    let mut actions: Vec<Action> = Vec::new();
    pay(&mut actions, &escrow.key, &vault.key, &buyer_token.key, escrow.data.amount);
    close(&mut actions, &escrow.key, &vault.key, rent_destination);
    assert(actions@ =~= refund_actions(*escrow, vault.key, buyer_token.key, *rent_destination));
    actions
}

} // verus!

//! What the instructions come to, in terms of what they are handed.
use vstd::bytes::spec_u64_to_le_bytes;
use vstd::prelude::*;

use crate::accounts::Account;
use crate::action::{inflow, Action, CloseAccount, Transfer};
use crate::address::{
    bump_search, canonical, config_seeds, escrow_seeds, owned_bytes, program_address,
    settlement_addresses, vault_seeds, AddressSet, Addresses,
};
use crate::configure::{
    initialize_config_result, update_config_result, Initialization, InitializeConfig, UpdateConfig,
};
use crate::constants::{
    CONFIG_SEED, ESCROW_SEED, SYSTEM_PROGRAM_ID, TOKEN_PROGRAM_ID, VAULT_SEED,
};
use crate::delivery::{mark_delivered_result, MarkDelivered};
use crate::dispute::{
    open_dispute_result, resolve_dispute_actions, resolve_dispute_result, OpenDispute,
    ResolveDispute,
};
use crate::error::{EscrowError, ProgramError};
use crate::event::{
    Delivered, DisputeOpened, DisputeResolved, EscrowCreated, RefundReason, Refunded, ReleaseReason,
    Released,
};
use crate::funding::{
    create_and_fund_actions, create_and_fund_result, creation_addresses, CreateAndFund, Creation,
    CreationAddresses,
};
use crate::laws::{
    law_approval_pays, law_creation_locks_the_payment, law_decision_pays, law_refund_pays,
    law_timeout_pays,
};
use crate::payout::{payout_actions, refund_actions, Settlement};
use crate::pubkey::Pubkey;
use crate::refund::{
    refund_undelivered_actions, refund_undelivered_result, RefundUndelivered,
};
use crate::release::{
    approve_and_release_actions, approve_and_release_result, release_after_timeout_actions,
    release_after_timeout_result, ApproveAndRelease, ReleaseAfterTimeout,
};
use crate::shares::{lemma_part_rounds_down, lemma_share_bounds, share};
use crate::state::{Escrow, EscrowStatus};

verus! {

/// The seeds are the bytes of `config`, of `escrow` with the order, the buyer
/// and the seller, and of `vault` with the address of the deal. A deal signs
/// with its seeds and its stored bump.
pub proof fn law_seeds_name_the_account(deal: Escrow, account: Pubkey)
    ensures
        config_seeds() == seq![seq![0x63u8, 0x6f, 0x6e, 0x66, 0x69, 0x67]],
        escrow_seeds(deal.order_id, deal.buyer, deal.seller) == seq![
            seq![0x65u8, 0x73, 0x63, 0x72, 0x6f, 0x77],
            spec_u64_to_le_bytes(deal.order_id),
            deal.buyer@,
            deal.seller@,
        ],
        vault_seeds(account) == seq![seq![0x76u8, 0x61, 0x75, 0x6c, 0x74], account@],
        deal.signer_seeds() == seq![
            seq![0x65u8, 0x73, 0x63, 0x72, 0x6f, 0x77],
            spec_u64_to_le_bytes(deal.order_id),
            deal.buyer@,
            deal.seller@,
            seq![deal.bump],
        ],
{
    assert(CONFIG_SEED@ =~= seq![0x63u8, 0x6f, 0x6e, 0x66, 0x69, 0x67]);
    assert(ESCROW_SEED@ =~= seq![0x65u8, 0x73, 0x63, 0x72, 0x6f, 0x77]);
    assert(VAULT_SEED@ =~= seq![0x76u8, 0x61, 0x75, 0x6c, 0x74]);
}

/// The token program and the system program are the ones of the ledger.
pub proof fn law_programs_are_the_known_ones()
    ensures
        TOKEN_PROGRAM_ID@ == seq![
            0x06u8, 0xdd, 0xf6, 0xe1, 0xd7, 0x65, 0xa1, 0x93, 0xd9, 0xcb, 0xe1, 0x46, 0xce, 0xeb,
            0x79, 0xac, 0x1c, 0xb4, 0x85, 0xed, 0x5f, 0x5b, 0x37, 0x91, 0x3a, 0x8c, 0xf5, 0x85,
            0x7e, 0xff, 0x00, 0xa9,
        ],
        SYSTEM_PROGRAM_ID@ == Seq::new(32, |i: int| 0u8),
{
    assert forall|i: int| 0 <= i < 32 implies SYSTEM_PROGRAM_ID@[i] == 0 by {}
}

/// Derived addresses that are handed over are read as their bytes, each in its
/// place, and a missing one stays missing.
pub proof fn law_handed_addresses_are_read_as_they_are(at: Addresses, new: CreationAddresses)
    ensures
        at.config is None <==> at@.config is None,
        at.escrow is None <==> at@.escrow is None,
        at.vault is None <==> at@.vault is None,
        at.config matches Some(key) ==> at@.config == Some(key@),
        at.escrow matches Some(key) ==> at@.escrow == Some(key@),
        at.vault matches Some(key) ==> at@.vault == Some(key@),
        new.config is None <==> new@.config is None,
        new.escrow is None <==> new@.escrow is None,
        new.vault is None <==> new@.vault is None,
        new.config matches Some(key) ==> new@.config == Some(key@),
        new.escrow matches Some((key, bump)) ==> new@.escrow == Some((key@, bump)),
        new.vault matches Some((key, bump)) ==> new@.vault == Some((key@, bump)),
{
}

/// A canonical address is the one under the greatest bump that derives any, and
/// is missing only where none of the bumps from one on does.
pub proof fn law_canonical_bump_is_the_greatest(seeds: Seq<Seq<u8>>, program_id: Seq<u8>, other: u8)
    ensures
        match canonical(seeds, program_id) {
            Some((address, bump)) => {
                &&& bump > 0
                &&& program_address(seeds.push(seq![bump]), program_id) == Some(address)
                &&& other > bump ==> program_address(seeds.push(seq![other]), program_id) is None
            },
            None => other > 0 ==> program_address(seeds.push(seq![other]), program_id) is None,
        },
{
    lemma_search_takes_the_greatest(seeds, program_id, 255, other);
}

/// The search from a bump down takes the greatest that derives an address.
proof fn lemma_search_takes_the_greatest(
    seeds: Seq<Seq<u8>>,
    program_id: Seq<u8>,
    top: nat,
    other: u8,
)
    requires
        top <= 255,
    ensures
        match bump_search(seeds, program_id, top) {
            Some((address, bump)) => {
                &&& 0 < bump <= top
                &&& program_address(seeds.push(seq![bump]), program_id) == Some(address)
                &&& bump < other <= top ==> program_address(
                    seeds.push(seq![other]),
                    program_id,
                ) is None
            },
            None => 0 < other <= top ==> program_address(
                seeds.push(seq![other]),
                program_id,
            ) is None,
        },
    decreases top,
{
    if top > 0 {
        lemma_search_takes_the_greatest(seeds, program_id, (top - 1) as nat, other);
    }
}

/// A part of an amount is the exact proportion, rounded down: what is left out is
/// less than one unit. Only a part of more than the whole can lose anything, and
/// then whole multiples of two to the sixty-fourth.
pub proof fn law_part_is_the_exact_proportion(amount: u64, bps: u16)
    ensures
        bps <= 10_000 ==> 10_000 * share(amount, bps) <= amount * bps < 10_000 * (share(amount, bps)
            + 1),
        0 <= share(amount, bps) <= u64::MAX,
        ({
            let lost = (amount * bps / 10_000 - share(amount, bps)) / 0x1_0000_0000_0000_0000;
            let part = share(amount, bps) + lost * 0x1_0000_0000_0000_0000;
            10_000 * part <= amount * bps < 10_000 * (part + 1)
        }),
{
    assert(0 <= amount * bps) by (nonlinear_arith)
        requires
            0 <= amount,
            0 <= bps,
    ;
    if bps <= 10_000 {
        lemma_part_rounds_down(amount, bps);
    }
}

/// Parts grow with the amount and with the basis points, and two parts that make
/// up the whole leave at most one unit between them.
pub proof fn law_parts_compare(amount: u64, more: u64, bps: u16, rest: u16)
    requires
        amount <= more,
        bps + rest == 10_000,
    ensures
        share(amount, bps) <= share(more, bps),
        amount - 1 <= share(amount, bps) + share(amount, rest) <= amount,
{
    law_part_is_the_exact_proportion(amount, bps);
    law_part_is_the_exact_proportion(more, bps);
    law_part_is_the_exact_proportion(amount, rest);
    assert(amount * bps <= more * bps) by (nonlinear_arith)
        requires
            amount <= more,
            0 <= bps,
    ;
    assert(amount * bps + amount * rest == amount * 10_000) by (nonlinear_arith)
        requires
            bps + rest == 10_000,
    ;
}

/// Whether seeds are those by which a deal signs.
pub open spec fn signs_for(seeds: Seq<Vec<u8>>, deal: Escrow) -> bool {
    &&& seeds.len() == 5
    &&& seeds[0]@ == seq![0x65u8, 0x73, 0x63, 0x72, 0x6f, 0x77]
    &&& seeds[1]@ == spec_u64_to_le_bytes(deal.order_id)
    &&& seeds[2]@ == deal.buyer@
    &&& seeds[3]@ == deal.seller@
    &&& seeds[4]@ == seq![deal.bump]
}

/// The seeds that a settlement carries are those of the deal.
proof fn lemma_signs_for(seeds: Seq<Vec<u8>>, deal: Escrow)
    requires
        owned_bytes(seeds) == deal.signer_seeds(),
    ensures
        signs_for(seeds, deal),
{
    law_seeds_name_the_account(deal, deal.buyer);
    let bytes = owned_bytes(seeds);
    assert(bytes.len() == seeds.len());
    assert forall|i: int| 0 <= i < seeds.len() implies #[trigger] bytes[i] == seeds[i]@ by {}
    assert(bytes[0] == seeds[0]@ && bytes[1] == seeds[1]@ && bytes[2] == seeds[2]@ && bytes[3]
        == seeds[3]@ && bytes[4] == seeds[4]@);
}

/// A payout pays the seller the amount less the fee first, then the platform the
/// fee if there is one, and last closes the vault. The deal signs for all of it.
pub proof fn law_payout_in_order(
    escrow: Account<Escrow>,
    vault: Pubkey,
    seller_token: Pubkey,
    fee_vault: Pubkey,
    fee_bps: u16,
    rent_destination: Pubkey,
)
    requires
        fee_bps <= 10_000,
    ensures
        ({
            let amount = escrow.data.amount;
            let actions = payout_actions(
                escrow,
                vault,
                seller_token,
                fee_vault,
                fee_bps,
                rent_destination,
            );
            let closing = Action::SignedClose(
                CloseAccount {
                    account: vault,
                    destination: rent_destination,
                    authority: escrow.key,
                },
            );
            &&& actions.len() == 2 || actions.len() == 3
            &&& actions[0] matches Action::SignedTransfer(t) && {
                let fee = amount - t.amount;
                &&& 10_000 * fee <= amount * fee_bps < 10_000 * (fee + 1)
                &&& t.from == vault && t.to == seller_token && t.authority == escrow.key
                &&& fee == 0 ==> actions.len() == 2
                &&& fee > 0 ==> actions.len() == 3 && actions[1] == Action::SignedTransfer(
                    Transfer {
                        from: vault,
                        to: fee_vault,
                        authority: escrow.key,
                        amount: fee as u64,
                    },
                )
            }
            &&& actions.last() == closing
        }),
{
    law_part_is_the_exact_proportion(escrow.data.amount, fee_bps);
    lemma_share_bounds(escrow.data.amount, fee_bps, fee_bps);
}

/// A repayment pays the buyer the whole amount, then closes the vault. The deal
/// signs for both.
pub proof fn law_repayment_in_order(
    escrow: Account<Escrow>,
    vault: Pubkey,
    buyer_token: Pubkey,
    rent_destination: Pubkey,
)
    ensures
        refund_actions(escrow, vault, buyer_token, rent_destination) == seq![
            Action::SignedTransfer(
                Transfer {
                    from: vault,
                    to: buyer_token,
                    authority: escrow.key,
                    amount: escrow.data.amount,
                },
            ),
            Action::SignedClose(
                CloseAccount {
                    account: vault,
                    destination: rent_destination,
                    authority: escrow.key,
                },
            ),
        ],
{
}

/// An approval leaves all as it is but the status, which becomes released, and
/// the tip, which is noted if there is one. The buyer's tip goes to the seller
/// first, then the amount less the fee, then the fee, and the vault is closed.
pub proof fn law_outcome_of_approvals(
    program_id: Pubkey,
    before: ApproveAndRelease,
    after: ApproveAndRelease,
    tip_amount: u64,
    res: Result<Settlement<Released>, ProgramError>,
)
    requires
        approve_and_release_result(
            before,
            after,
            settlement_addresses(program_id, before.config, before.escrow),
            tip_amount,
            res,
        ),
    ensures
        res is Err ==> after == before,
        res matches Ok(done) ==> {
            let deal = before.escrow.data;
            let pay = |to: Pubkey, amount: int|
                Action::SignedTransfer(
                    Transfer {
                        from: before.vault.key,
                        to,
                        authority: before.escrow.key,
                        amount: amount as u64,
                    },
                );
            let closing = Action::SignedClose(
                CloseAccount {
                    account: before.vault.key,
                    destination: before.buyer.key,
                    authority: before.escrow.key,
                },
            );
            let fee = (deal.amount * before.config.data.fee_bps / 10_000) % 0x1_0000_0000_0000_0000;
            let tip = Action::Transfer(
                Transfer {
                    from: before.buyer_token.key,
                    to: before.seller_token.key,
                    authority: before.buyer.key,
                    amount: tip_amount,
                },
            );
            let head = if tip_amount > 0 {
                seq![tip, pay(before.seller_token.key, deal.amount - fee)]
            } else {
                seq![pay(before.seller_token.key, deal.amount - fee)]
            };
            let tail = if fee > 0 {
                seq![pay(before.fee_vault.key, fee), closing]
            } else {
                seq![closing]
            };
            let noted = if tip_amount > 0 {
                tip_amount
            } else {
                deal.tip
            };
            &&& done.actions@ =~= head + tail
            &&& after == (ApproveAndRelease {
                escrow: Account {
                    data: Escrow { status: EscrowStatus::Released, tip: noted, ..deal },
                    ..before.escrow
                },
                ..before
            })
            &&& signs_for(done.signer_seeds@, deal)
            &&& done.event == (Released {
                escrow: before.escrow.key,
                reason: ReleaseReason::BuyerApproved,
                tip: tip_amount,
            })
        },
{
    if let Ok(done) = res {
        lemma_signs_for(done.signer_seeds@, before.escrow.data);
    }
}

/// A release after the review period leaves all as it is but the status, which
/// becomes released. The amount less the fee goes to the seller, then the fee to
/// the platform, and the vault is closed.
pub proof fn law_outcome_of_timeouts(
    program_id: Pubkey,
    before: ReleaseAfterTimeout,
    after: ReleaseAfterTimeout,
    now: i64,
    res: Result<Settlement<Released>, ProgramError>,
)
    requires
        release_after_timeout_result(
            before,
            after,
            settlement_addresses(program_id, before.config, before.escrow),
            now,
            res,
        ),
    ensures
        res is Err ==> after == before,
        res matches Ok(done) ==> {
            let deal = before.escrow.data;
            let pay = |to: Pubkey, amount: int|
                Action::SignedTransfer(
                    Transfer {
                        from: before.vault.key,
                        to,
                        authority: before.escrow.key,
                        amount: amount as u64,
                    },
                );
            let closing = Action::SignedClose(
                CloseAccount {
                    account: before.vault.key,
                    destination: before.buyer.key,
                    authority: before.escrow.key,
                },
            );
            let fee = (deal.amount * before.config.data.fee_bps / 10_000) % 0x1_0000_0000_0000_0000;
            let tail = if fee > 0 {
                seq![pay(before.fee_vault.key, fee), closing]
            } else {
                seq![closing]
            };
            &&& done.actions@ =~= seq![pay(before.seller_token.key, deal.amount - fee)] + tail
            &&& after == (ReleaseAfterTimeout {
                escrow: Account {
                    data: Escrow { status: EscrowStatus::Released, ..deal },
                    ..before.escrow
                },
                ..before
            })
            &&& signs_for(done.signer_seeds@, deal)
            &&& done.event == (Released {
                escrow: before.escrow.key,
                reason: ReleaseReason::Timeout,
                tip: 0,
            })
        },
{
    if let Ok(done) = res {
        lemma_signs_for(done.signer_seeds@, before.escrow.data);
    }
}

/// A refund leaves all as it is but the status, which becomes refunded. The whole
/// amount goes to the buyer, and the vault is closed.
pub proof fn law_outcome_of_refunds(
    program_id: Pubkey,
    before: RefundUndelivered,
    after: RefundUndelivered,
    now: i64,
    res: Result<Settlement<Refunded>, ProgramError>,
)
    requires
        refund_undelivered_result(
            before,
            after,
            settlement_addresses(program_id, before.config, before.escrow),
            now,
            res,
        ),
    ensures
        res is Err ==> after == before,
        res matches Ok(done) ==> {
            let deal = before.escrow.data;
            let pay = |to: Pubkey, amount: int|
                Action::SignedTransfer(
                    Transfer {
                        from: before.vault.key,
                        to,
                        authority: before.escrow.key,
                        amount: amount as u64,
                    },
                );
            let closing = Action::SignedClose(
                CloseAccount {
                    account: before.vault.key,
                    destination: before.buyer.key,
                    authority: before.escrow.key,
                },
            );
            &&& done.actions@ =~= seq![pay(before.buyer_token.key, deal.amount as int), closing]
            &&& after == (RefundUndelivered {
                escrow: Account {
                    data: Escrow { status: EscrowStatus::Refunded, ..deal },
                    ..before.escrow
                },
                ..before
            })
            &&& signs_for(done.signer_seeds@, deal)
            &&& done.event == (Refunded {
                escrow: before.escrow.key,
                reason: RefundReason::NotDelivered,
            })
        },
{
    if let Ok(done) = res {
        lemma_signs_for(done.signer_seeds@, before.escrow.data);
    }
}

/// A decision leaves all as it is but the status, which becomes refunded for
/// nothing to the seller, released for everything, and split between. The seller's
/// part less the fee on it goes to the seller, then the fee to the platform, then
/// the rest to the buyer, each if there is any, and the vault is closed.
pub proof fn law_outcome_of_decisions(
    program_id: Pubkey,
    before: ResolveDispute,
    after: ResolveDispute,
    seller_bps: u16,
    res: Result<Settlement<DisputeResolved>, ProgramError>,
)
    requires
        resolve_dispute_result(
            before,
            after,
            settlement_addresses(program_id, before.config, before.escrow),
            seller_bps,
            res,
        ),
    ensures
        res is Err ==> after == before,
        res matches Ok(done) ==> {
            let deal = before.escrow.data;
            let pay = |to: Pubkey, amount: int|
                Action::SignedTransfer(
                    Transfer {
                        from: before.vault.key,
                        to,
                        authority: before.escrow.key,
                        amount: amount as u64,
                    },
                );
            let closing = Action::SignedClose(
                CloseAccount {
                    account: before.vault.key,
                    destination: before.buyer.key,
                    authority: before.escrow.key,
                },
            );
            let gross = deal.amount * seller_bps / 10_000;
            let fee = (gross * before.config.data.fee_bps / 10_000) % 0x1_0000_0000_0000_0000;
            let to_seller = if gross - fee > 0 {
                seq![pay(before.seller_token.key, gross - fee)]
            } else {
                Seq::<Action>::empty()
            };
            let to_platform = if fee > 0 {
                seq![pay(before.fee_vault.key, fee)]
            } else {
                Seq::<Action>::empty()
            };
            let to_buyer = if deal.amount - gross > 0 {
                seq![pay(before.buyer_token.key, deal.amount - gross)]
            } else {
                Seq::<Action>::empty()
            };
            let status = if seller_bps == 0 {
                EscrowStatus::Refunded
            } else if seller_bps == 10_000 {
                EscrowStatus::Released
            } else {
                EscrowStatus::Split
            };
            &&& done.actions@ =~= to_seller + to_platform + to_buyer + seq![closing]
            &&& after == (ResolveDispute {
                escrow: Account {
                    data: Escrow { status, ..deal },
                    ..before.escrow
                },
                ..before
            })
            &&& signs_for(done.signer_seeds@, deal)
            &&& done.event == (DisputeResolved { escrow: before.escrow.key, seller_bps })
        },
{
    if let Ok(done) = res {
        lemma_signs_for(done.signer_seeds@, before.escrow.data);
        lemma_share_bounds(before.escrow.data.amount, seller_bps, seller_bps);
    }
}

/// A delivery leaves all as it is but the status, which becomes delivered, and the
/// delivery time, which is the moment of the delivery.
pub proof fn law_outcome_of_deliveries(
    program_id: Pubkey,
    before: MarkDelivered,
    after: MarkDelivered,
    now: i64,
    res: Result<Delivered, ProgramError>,
)
    requires
        mark_delivered_result(
            before,
            after,
            program_address(before.escrow.data.signer_seeds(), program_id@),
            now,
            res,
        ),
    ensures
        res is Err ==> after == before,
        res matches Ok(done) ==> {
            let deal = before.escrow.data;
            &&& after == (MarkDelivered {
                escrow: Account {
                    data: Escrow { status: EscrowStatus::Delivered, delivered_at: now, ..deal },
                    ..before.escrow
                },
                ..before
            })
            &&& done == (Delivered { escrow: before.escrow.key, delivered_at: now })
        },
{
}

/// A dispute leaves all as it is but the status, which becomes disputed, and names
/// the party that opened it.
pub proof fn law_outcome_of_disputes(
    program_id: Pubkey,
    before: OpenDispute,
    after: OpenDispute,
    now: i64,
    res: Result<DisputeOpened, ProgramError>,
)
    requires
        open_dispute_result(
            before,
            after,
            program_address(before.escrow.data.signer_seeds(), program_id@),
            now,
            res,
        ),
    ensures
        res is Err ==> after == before,
        res matches Ok(done) ==> {
            let deal = before.escrow.data;
            &&& after == (OpenDispute {
                escrow: Account {
                    data: Escrow { status: EscrowStatus::Disputed, ..deal },
                    ..before.escrow
                },
                ..before
            })
            &&& done == (DisputeOpened { escrow: before.escrow.key, opened_by: before.party.key })
        },
{
}

/// A creation stores the order, the parties, the amount, no tip, the moment, the
/// review period of the configuration and the found bump. It has the deal's
/// account and its vault made at the buyer's expense, and then the amount moved
/// from the buyer's account into the vault.
pub proof fn law_outcome_of_creations(
    program_id: Pubkey,
    before: CreateAndFund,
    order_id: u64,
    amount: u64,
    instant_delivery: bool,
    now: i64,
    res: Result<Creation, ProgramError>,
)
    requires
        create_and_fund_result(
            program_id,
            before,
            creation_addresses(program_id, before, order_id),
            order_id,
            amount,
            instant_delivery,
            now,
            res,
        ),
    ensures
        res matches Ok(made) ==> {
            let found = canonical(
                escrow_seeds(order_id, before.buyer.key, before.seller),
                program_id@,
            );
            let deal = made.escrow;
            &&& found == Some((before.escrow.key@, deal.bump))
            &&& deal.order_id == order_id
            &&& deal.buyer == before.buyer.key
            &&& deal.seller == before.seller
            &&& deal.amount == amount
            &&& deal.tip == 0
            &&& deal.created_at == now
            &&& deal.review_period == before.config.data.default_review_period
            &&& instant_delivery ==> deal.status is Delivered && deal.delivered_at == now
            &&& !instant_delivery ==> deal.status is Funded && deal.delivered_at == 0
            &&& made.actions@ =~= seq![
                Action::CreateAccount {
                    address: before.escrow.key,
                    payer: before.buyer.key,
                    space: 122,
                    owner: program_id,
                },
                Action::CreateTokenAccount {
                    address: before.vault.key,
                    payer: before.buyer.key,
                    mint: before.config.data.usdc_mint,
                    authority: before.escrow.key,
                },
                Action::Transfer(
                    Transfer {
                        from: before.buyer_token.key,
                        to: before.vault.key,
                        authority: before.buyer.key,
                        amount,
                    },
                ),
            ]
            &&& made.event == (EscrowCreated {
                escrow: before.escrow.key,
                order_id,
                buyer: before.buyer.key,
                seller: before.seller,
                amount,
                instant_delivery,
            })
        },
{
}

/// An initialisation stores what it is handed, not paused, with the found bump,
/// and has the account of the configuration made at the payer's expense.
pub proof fn law_outcome_of_initialisations(
    program_id: Pubkey,
    before: InitializeConfig,
    fee_bps: u16,
    default_review_period: i64,
    delivery_deadline: i64,
    max_deal_amount: u64,
    res: Result<Initialization, ProgramError>,
)
    requires
        initialize_config_result(
            program_id,
            before,
            canonical(config_seeds(), program_id@),
            fee_bps,
            default_review_period,
            delivery_deadline,
            max_deal_amount,
            res,
        ),
    ensures
        res matches Ok(made) ==> {
            let config = made.config;
            &&& canonical(config_seeds(), program_id@) == Some((before.config.key@, config.bump))
            &&& config.admin == before.admin
            &&& config.arbiter == before.arbiter
            &&& config.usdc_mint == before.usdc_mint
            &&& config.fee_vault == before.fee_vault.key
            &&& config.fee_bps == fee_bps
            &&& config.default_review_period == default_review_period
            &&& config.delivery_deadline == delivery_deadline
            &&& config.max_deal_amount == max_deal_amount
            &&& !config.paused
            &&& made.actions@ =~= seq![
                Action::CreateAccount {
                    address: before.config.key,
                    payer: before.payer.key,
                    space: 164,
                    owner: program_id,
                },
            ]
        },
{
}

/// After an update each setting has the value that was given, whatever stood
/// before, and the value that stood where none was given. Nothing else changes,
/// and a refused update changes nothing.
pub proof fn law_outcome_of_updates(
    program_id: Pubkey,
    before: UpdateConfig,
    after: UpdateConfig,
    fee_bps: Option<u16>,
    default_review_period: Option<i64>,
    arbiter: Option<Pubkey>,
    paused: Option<bool>,
    max_deal_amount: Option<u64>,
    res: Result<(), ProgramError>,
)
    requires
        update_config_result(
            before,
            after,
            program_address(config_seeds().push(seq![before.config.data.bump]), program_id@),
            fee_bps,
            default_review_period,
            arbiter,
            paused,
            max_deal_amount,
            res,
        ),
    ensures
        res is Err ==> after == before,
        res is Ok ==> {
            let stood = before.config.data;
            let config = after.config.data;
            &&& fee_bps matches Some(value) ==> config.fee_bps == value
            &&& fee_bps is None ==> config.fee_bps == stood.fee_bps
            &&& default_review_period matches Some(value) ==> config.default_review_period == value
            &&& default_review_period is None ==> config.default_review_period
                == stood.default_review_period
            &&& arbiter matches Some(value) ==> config.arbiter == value
            &&& arbiter is None ==> config.arbiter == stood.arbiter
            &&& paused matches Some(value) ==> config.paused == value
            &&& paused is None ==> config.paused == stood.paused
            &&& max_deal_amount matches Some(value) ==> config.max_deal_amount == value
            &&& max_deal_amount is None ==> config.max_deal_amount == stood.max_deal_amount
            &&& config.admin == stood.admin
            &&& config.usdc_mint == stood.usdc_mint
            &&& config.fee_vault == stood.fee_vault
            &&& config.delivery_deadline == stood.delivery_deadline
            &&& config.bump == stood.bump
            &&& after.config.key == before.config.key
            &&& after.config.is_writable == before.config.is_writable
            &&& after.admin == before.admin
        },
{
}

/// A decision is exact: the three get the amount between them, what the seller
/// and the platform get is the seller's part of it rounded down, and what the
/// platform gets is the fee on that part rounded down.
pub proof fn law_decisions_are_exact(
    before: ResolveDispute,
    after: ResolveDispute,
    at: AddressSet,
    seller_bps: u16,
    res: Result<Settlement<DisputeResolved>, ProgramError>,
)
    requires
        resolve_dispute_result(before, after, at, seller_bps, res),
        before.config.data.fee_bps <= 10_000,
    ensures
        res matches Ok(done) ==> {
            let amount = before.escrow.data.amount;
            let seller = inflow(done.actions@, before.seller_token.key);
            let platform = inflow(done.actions@, before.fee_vault.key);
            let buyer = inflow(done.actions@, before.buyer_token.key);
            let gross = seller + platform;
            &&& seller >= 0 && platform >= 0 && buyer >= 0
            &&& gross + buyer == amount
            &&& 10_000 * gross <= amount * seller_bps < 10_000 * (gross + 1)
            &&& 10_000 * platform <= gross * before.config.data.fee_bps < 10_000 * (platform + 1)
        },
{
    if res is Ok {
        let amount = before.escrow.data.amount;
        let gross = share(amount, seller_bps);
        law_decision_pays(before, at, seller_bps);
        assert(resolve_dispute_actions(before, seller_bps) == res->Ok_0.actions@);
        lemma_share_bounds(amount, seller_bps, seller_bps);
        lemma_share_bounds(gross as u64, before.config.data.fee_bps, before.config.data.fee_bps);
        law_part_is_the_exact_proportion(amount, seller_bps);
        law_part_is_the_exact_proportion(gross as u64, before.config.data.fee_bps);
    }
}

/// A decision for a greater share never gives the seller, or the platform, less,
/// nor the buyer more.
pub proof fn law_decisions_grow_with_the_share(
    less: ResolveDispute,
    less_after: ResolveDispute,
    less_bps: u16,
    less_res: Result<Settlement<DisputeResolved>, ProgramError>,
    more_after: ResolveDispute,
    more_bps: u16,
    more_res: Result<Settlement<DisputeResolved>, ProgramError>,
    at: AddressSet,
)
    requires
        resolve_dispute_result(less, less_after, at, less_bps, less_res),
        resolve_dispute_result(less, more_after, at, more_bps, more_res),
        less_bps <= more_bps,
        less.config.data.fee_bps <= 10_000,
        less_res is Ok,
        more_res is Ok,
    ensures
        ({
            let a = less_res->Ok_0.actions@;
            let b = more_res->Ok_0.actions@;
            &&& inflow(a, less.fee_vault.key) <= inflow(b, less.fee_vault.key)
            &&& inflow(a, less.seller_token.key) <= inflow(b, less.seller_token.key)
            &&& inflow(a, less.buyer_token.key) >= inflow(b, less.buyer_token.key)
        }),
{
    law_decisions_are_exact(less, less_after, at, less_bps, less_res);
    law_decisions_are_exact(less, more_after, at, more_bps, more_res);
    let amount = less.escrow.data.amount as int;
    let fee_bps = less.config.data.fee_bps as int;
    let a = less_res->Ok_0.actions@;
    let b = more_res->Ok_0.actions@;
    let x = inflow(a, less.seller_token.key) + inflow(a, less.fee_vault.key);
    let y = inflow(b, less.seller_token.key) + inflow(b, less.fee_vault.key);
    assert(amount * less_bps <= amount * more_bps) by (nonlinear_arith)
        requires
            0 <= amount,
            less_bps <= more_bps,
    ;
    assert(x <= y);
    let d = y - x;
    assert(0 <= y * fee_bps - x * fee_bps <= 10_000 * d) by (nonlinear_arith)
        requires
            d == y - x,
            0 <= d,
            0 <= fee_bps <= 10_000,
    ;
}

/// An approval is exact: the seller gets the amount and the tip, less a fee that
/// is the platform's part of the amount alone, rounded down.
pub proof fn law_approvals_are_exact(
    before: ApproveAndRelease,
    after: ApproveAndRelease,
    at: AddressSet,
    tip_amount: u64,
    res: Result<Settlement<Released>, ProgramError>,
)
    requires
        approve_and_release_result(before, after, at, tip_amount, res),
        before.config.data.fee_bps <= 10_000,
    ensures
        res matches Ok(done) ==> {
            let amount = before.escrow.data.amount;
            let platform = inflow(done.actions@, before.fee_vault.key);
            &&& inflow(done.actions@, before.seller_token.key) + platform == amount + tip_amount
            &&& 0 <= 10_000 * platform <= amount * before.config.data.fee_bps < 10_000 * (platform
                + 1)
        },
{
    if res is Ok {
        law_approval_pays(before, at, tip_amount);
        assert(approve_and_release_actions(before, tip_amount) == res->Ok_0.actions@);
        law_part_is_the_exact_proportion(before.escrow.data.amount, before.config.data.fee_bps);
    }
}

/// A release after the review period is exact: the seller gets the amount less a
/// fee that is the platform's part of it, rounded down.
pub proof fn law_timeouts_are_exact(
    before: ReleaseAfterTimeout,
    after: ReleaseAfterTimeout,
    at: AddressSet,
    now: i64,
    res: Result<Settlement<Released>, ProgramError>,
)
    requires
        release_after_timeout_result(before, after, at, now, res),
        before.config.data.fee_bps <= 10_000,
    ensures
        res matches Ok(done) ==> {
            let amount = before.escrow.data.amount;
            let platform = inflow(done.actions@, before.fee_vault.key);
            &&& inflow(done.actions@, before.seller_token.key) + platform == amount
            &&& 0 <= 10_000 * platform <= amount * before.config.data.fee_bps < 10_000 * (platform
                + 1)
        },
{
    if res is Ok {
        law_timeout_pays(before, at, now);
        assert(release_after_timeout_actions(before) == res->Ok_0.actions@);
        law_part_is_the_exact_proportion(before.escrow.data.amount, before.config.data.fee_bps);
    }
}

/// A refund is exact: the buyer gets the amount.
pub proof fn law_refunds_are_exact(
    before: RefundUndelivered,
    after: RefundUndelivered,
    at: AddressSet,
    now: i64,
    res: Result<Settlement<Refunded>, ProgramError>,
)
    requires
        refund_undelivered_result(before, after, at, now, res),
    ensures
        res matches Ok(done) ==> inflow(done.actions@, before.buyer_token.key)
            == before.escrow.data.amount,
{
    if res is Ok {
        law_refund_pays(before, at, now);
        assert(refund_undelivered_actions(before) == res->Ok_0.actions@);
    }
}

/// With the accounts in order and a fee of at most the whole, a delivered deal is
/// released from the moment on that lies its review period after its delivery,
/// and not before.
pub proof fn law_releases_begin_when_the_review_is_over(
    before: ReleaseAfterTimeout,
    after: ReleaseAfterTimeout,
    at: AddressSet,
    now: i64,
    res: Result<Settlement<Released>, ProgramError>,
)
    requires
        release_after_timeout_result(before, after, at, now, res),
        before.fault(at) is None,
        before.escrow.data.status is Delivered,
        before.config.data.fee_bps <= 10_000,
        i64::MIN <= before.escrow.data.delivered_at + before.escrow.data.review_period,
    ensures
        res is Ok <==> now >= before.escrow.data.delivered_at + before.escrow.data.review_period,
        now < before.escrow.data.delivered_at + before.escrow.data.review_period <= i64::MAX ==> res
            == Err::<Settlement<Released>, ProgramError>(
            ProgramError::Escrow(EscrowError::ReviewPeriodNotOver),
        ),
{
    let amount = before.escrow.data.amount;
    lemma_share_bounds(amount, before.config.data.fee_bps, before.config.data.fee_bps);
}

/// With the account in order, a party can dispute a delivered deal before the
/// moment that lies its review period after its delivery, and not from then on.
pub proof fn law_disputes_end_when_the_review_is_over(
    before: OpenDispute,
    after: OpenDispute,
    address: Option<Seq<u8>>,
    now: i64,
    res: Result<DisputeOpened, ProgramError>,
)
    requires
        open_dispute_result(before, after, address, now, res),
        before.fault(address) is None,
        before.escrow.data.status is Delivered,
        before.party.key == before.escrow.data.buyer || before.party.key
            == before.escrow.data.seller,
        before.escrow.data.delivered_at + before.escrow.data.review_period <= i64::MAX,
    ensures
        res is Ok <==> now < before.escrow.data.delivered_at + before.escrow.data.review_period,
        i64::MIN <= before.escrow.data.delivered_at + before.escrow.data.review_period <= now ==> res
            == Err::<DisputeOpened, ProgramError>(
            ProgramError::Escrow(EscrowError::TooLateForDispute),
        ),
{
}

/// With the accounts in order, a funded deal is refunded from the moment on that
/// lies the delivery deadline after its creation, and not before.
pub proof fn law_refunds_begin_when_the_delivery_is_overdue(
    before: RefundUndelivered,
    after: RefundUndelivered,
    at: AddressSet,
    now: i64,
    res: Result<Settlement<Refunded>, ProgramError>,
)
    requires
        refund_undelivered_result(before, after, at, now, res),
        before.fault(at) is None,
        before.escrow.data.status is Funded,
        i64::MIN <= before.escrow.data.created_at + before.config.data.delivery_deadline,
    ensures
        res is Ok <==> now >= before.escrow.data.created_at + before.config.data.delivery_deadline,
        now < before.escrow.data.created_at + before.config.data.delivery_deadline <= i64::MAX ==> {
            &&& res == Err::<Settlement<Refunded>, ProgramError>(
                ProgramError::Escrow(EscrowError::DeliveryDeadlineNotOver),
            )
            &&& after.escrow.data.status is Funded
        },
{
}

/// With the accounts in order, a creation is accepted whenever the protocol is
/// not paused, there is an amount, it is within the cap, and the buyer is not
/// the seller, and only then.
pub proof fn law_creations_within_the_cap_are_accepted(
    program_id: Pubkey,
    ctx: CreateAndFund,
    order_id: u64,
    amount: u64,
    instant_delivery: bool,
    now: i64,
    res: Result<Creation, ProgramError>,
)
    requires
        create_and_fund_result(
            program_id,
            ctx,
            creation_addresses(program_id, ctx, order_id),
            order_id,
            amount,
            instant_delivery,
            now,
            res,
        ),
        ctx.fault(creation_addresses(program_id, ctx, order_id)) is None,
    ensures
        res is Ok <==> {
            &&& !ctx.config.data.paused
            &&& 0 < amount <= ctx.config.data.max_deal_amount
            &&& ctx.buyer.key != ctx.seller
        },
        res matches Ok(made) ==> made.escrow.amount == amount && inflow(
            made.actions@,
            ctx.vault.key,
        ) == amount,
{
    if let Ok(made) = res {
        let at = creation_addresses(program_id, ctx, order_id);
        assert(create_and_fund_actions(program_id, ctx, amount) == made.actions@);
        law_creation_locks_the_payment(program_id, ctx, at, amount, ctx.vault.key);
    }
}

/// A pause can be set and lifted: after an accepted update that says so, whatever
/// stood before, a creation under that configuration with its accounts in order
/// is refused for the pause if it is set, and not refused for it if it is lifted.
pub proof fn law_pause_is_what_the_admin_says(
    update: UpdateConfig,
    updated: UpdateConfig,
    address: Option<Seq<u8>>,
    fee_bps: Option<u16>,
    default_review_period: Option<i64>,
    arbiter: Option<Pubkey>,
    paused: bool,
    max_deal_amount: Option<u64>,
    ctx: CreateAndFund,
    amount: u64,
    program_id: Pubkey,
    order_id: u64,
    instant_delivery: bool,
    now: i64,
    res: Result<Creation, ProgramError>,
)
    requires
        update_config_result(
            update,
            updated,
            address,
            fee_bps,
            default_review_period,
            arbiter,
            Some(paused),
            max_deal_amount,
            Ok(()),
        ),
        ctx.config.data == updated.config.data,
        ctx.fault(creation_addresses(program_id, ctx, order_id)) is None,
        create_and_fund_result(
            program_id,
            ctx,
            creation_addresses(program_id, ctx, order_id),
            order_id,
            amount,
            instant_delivery,
            now,
            res,
        ),
    ensures
        paused <==> res == Err::<Creation, ProgramError>(
            ProgramError::Escrow(EscrowError::ProtocolPaused),
        ),
{
}

/// The last update of a setting holds: of two accepted updates that give it, the
/// second decides, and one that gives it nothing leaves it alone.
pub proof fn law_last_update_holds(
    start: UpdateConfig,
    middle: UpdateConfig,
    end: UpdateConfig,
    address: Option<Seq<u8>>,
    first_fee: Option<u16>,
    second_fee: Option<u16>,
    first_period: Option<i64>,
    second_period: Option<i64>,
    first_arbiter: Option<Pubkey>,
    second_arbiter: Option<Pubkey>,
    first_pause: Option<bool>,
    second_pause: Option<bool>,
    first_cap: Option<u64>,
    second_cap: Option<u64>,
)
    requires
        update_config_result(
            start,
            middle,
            address,
            first_fee,
            first_period,
            first_arbiter,
            first_pause,
            first_cap,
            Ok(()),
        ),
        update_config_result(
            middle,
            end,
            address,
            second_fee,
            second_period,
            second_arbiter,
            second_pause,
            second_cap,
            Ok(()),
        ),
    ensures
        ({
            let config = end.config.data;
            &&& second_fee matches Some(fee) ==> config.fee_bps == fee
            &&& second_fee is None && first_fee is Some ==> config.fee_bps == first_fee->0
            &&& second_period matches Some(period) ==> config.default_review_period == period
            &&& second_period is None && first_period is Some ==> config.default_review_period
                == first_period->0
            &&& second_arbiter matches Some(arbiter) ==> config.arbiter == arbiter
            &&& second_arbiter is None && first_arbiter is Some ==> config.arbiter
                == first_arbiter->0
            &&& second_pause matches Some(pause) ==> config.paused == pause
            &&& second_pause is None && first_pause is Some ==> config.paused == first_pause->0
            &&& second_cap matches Some(cap) ==> config.max_deal_amount == cap
            &&& second_cap is None && first_cap is Some ==> config.max_deal_amount == first_cap->0
        }),
{
}

/// The review runs from the delivery: a deal that was marked delivered can be
/// released once its review period has passed since that moment, whatever the
/// configuration says of review periods by then, and not earlier.
pub proof fn law_review_runs_from_the_delivery(
    funded: MarkDelivered,
    delivered: MarkDelivered,
    address: Option<Seq<u8>>,
    moment: i64,
    event: Delivered,
    before: ReleaseAfterTimeout,
    after: ReleaseAfterTimeout,
    at: AddressSet,
    now: i64,
    res: Result<Settlement<Released>, ProgramError>,
)
    requires
        mark_delivered_result(funded, delivered, address, moment, Ok(event)),
        before.escrow == delivered.escrow,
        release_after_timeout_result(before, after, at, now, res),
        before.fault(at) is None,
        before.config.data.fee_bps <= 10_000,
        0 <= funded.escrow.data.review_period,
    ensures
        res is Ok <==> now >= moment + funded.escrow.data.review_period,
{
    law_releases_begin_when_the_review_is_over(before, after, at, now, res);
}

/// The review of goods that come with the payment runs from the creation, for as
/// long as the configuration said then.
pub proof fn law_review_of_goods_runs_from_the_creation(
    program_id: Pubkey,
    ctx: CreateAndFund,
    order_id: u64,
    amount: u64,
    moment: i64,
    made: Creation,
    before: ReleaseAfterTimeout,
    after: ReleaseAfterTimeout,
    at: AddressSet,
    now: i64,
    res: Result<Settlement<Released>, ProgramError>,
)
    requires
        create_and_fund_result(
            program_id,
            ctx,
            creation_addresses(program_id, ctx, order_id),
            order_id,
            amount,
            true,
            moment,
            Ok(made),
        ),
        before.escrow.data == made.escrow,
        release_after_timeout_result(before, after, at, now, res),
        before.fault(at) is None,
        before.config.data.fee_bps <= 10_000,
        0 <= ctx.config.data.default_review_period,
    ensures
        res is Ok <==> now >= moment + ctx.config.data.default_review_period,
{
    law_releases_begin_when_the_review_is_over(before, after, at, now, res);
}

/// An order is overdue once the delivery deadline has passed since it was funded:
/// it can be refunded from then on, and not earlier.
pub proof fn law_orders_are_due_from_their_creation(
    program_id: Pubkey,
    ctx: CreateAndFund,
    order_id: u64,
    amount: u64,
    moment: i64,
    made: Creation,
    before: RefundUndelivered,
    after: RefundUndelivered,
    at: AddressSet,
    now: i64,
    res: Result<Settlement<Refunded>, ProgramError>,
)
    requires
        create_and_fund_result(
            program_id,
            ctx,
            creation_addresses(program_id, ctx, order_id),
            order_id,
            amount,
            false,
            moment,
            Ok(made),
        ),
        before.escrow.data == made.escrow,
        refund_undelivered_result(before, after, at, now, res),
        before.fault(at) is None,
        i64::MIN <= moment + before.config.data.delivery_deadline,
    ensures
        res is Ok <==> now >= moment + before.config.data.delivery_deadline,
{
    law_refunds_begin_when_the_delivery_is_overdue(before, after, at, now, res);
}

/// The errors count in the order in which clients know them.
pub proof fn law_errors_keep_their_numbers()
    ensures
        EscrowError::FeeTooHigh.index() == 0,
        EscrowError::InvalidReviewPeriod.index() == 1,
        EscrowError::ProtocolPaused.index() == 2,
        EscrowError::ZeroAmount.index() == 3,
        EscrowError::SelfDeal.index() == 4,
        EscrowError::InvalidStatus.index() == 5,
        EscrowError::Unauthorized.index() == 6,
        EscrowError::ReviewPeriodNotOver.index() == 7,
        EscrowError::DeliveryDeadlineNotOver.index() == 8,
        EscrowError::TooLateForDispute.index() == 9,
        EscrowError::WrongMint.index() == 10,
        EscrowError::WrongFeeVault.index() == 11,
        EscrowError::InvalidBps.index() == 12,
        EscrowError::MathOverflow.index() == 13,
        EscrowError::DealTooLarge.index() == 14,
{
}

/// The errors say what clients show.
pub proof fn law_errors_keep_their_texts()
    ensures
        EscrowError::FeeTooHigh.text() == "Fee exceeds maximum allowed"@,
        EscrowError::InvalidReviewPeriod.text() == "Invalid review period"@,
        EscrowError::ProtocolPaused.text() == "Protocol is paused"@,
        EscrowError::ZeroAmount.text() == "Amount must be greater than zero"@,
        EscrowError::SelfDeal.text() == "Buyer and seller cannot be the same wallet"@,
        EscrowError::InvalidStatus.text() == "Invalid escrow status for this action"@,
        EscrowError::Unauthorized.text() == "Unauthorized"@,
        EscrowError::ReviewPeriodNotOver.text() == "Review period is not over yet"@,
        EscrowError::DeliveryDeadlineNotOver.text() == "Delivery deadline is not over yet"@,
        EscrowError::TooLateForDispute.text() == "Too late to open a dispute"@,
        EscrowError::WrongMint.text() == "Wrong token mint"@,
        EscrowError::WrongFeeVault.text() == "Wrong fee vault"@,
        EscrowError::InvalidBps.text() == "Invalid basis points value"@,
        EscrowError::MathOverflow.text() == "Math overflow"@,
        EscrowError::DealTooLarge.text() == "Deal amount exceeds current platform limit"@,
{
}

} // verus!

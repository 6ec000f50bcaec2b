//! When the instructions are refused, in terms of what they are handed.
use vstd::prelude::*;

use crate::address::{
    canonical, config_seeds, escrow_seeds, program_address, settlement_addresses, vault_seeds,
};
use crate::configure::{
    initialize_config_result, update_config_result, Initialization, InitializeConfig, UpdateConfig,
};
use crate::constants::{SYSTEM_PROGRAM_ID, TOKEN_PROGRAM_ID};
use crate::delivery::{mark_delivered_result, MarkDelivered};
use crate::dispute::{
    open_dispute_result, resolve_dispute_result, OpenDispute, ResolveDispute,
};
use crate::error::{AccountError, EscrowError, ProgramError};
use crate::event::{Delivered, DisputeOpened, DisputeResolved, Refunded, Released};
use crate::funding::{create_and_fund_result, creation_addresses, CreateAndFund, Creation};
use crate::payout::Settlement;
use crate::pubkey::Pubkey;
use crate::refund::{refund_undelivered_result, RefundUndelivered};
use crate::release::{
    approve_and_release_result, release_after_timeout_result, ApproveAndRelease,
    ReleaseAfterTimeout,
};
use crate::shares::lemma_share_bounds;

verus! {

/// No address occurs twice among five that differ pairwise, and only then.
proof fn lemma_distinct_five(a: Pubkey, b: Pubkey, c: Pubkey, d: Pubkey, e: Pubkey)
    ensures
        seq![a, b, c, d, e].no_duplicates() <==> {
            &&& a != b && a != c && a != d && a != e
            &&& b != c && b != d && b != e
            &&& c != d && c != e
            &&& d != e
        },
{
    let s = seq![a, b, c, d, e];
    assert(s[0] == a && s[1] == b && s[2] == c && s[3] == d && s[4] == e);
}

/// No address occurs twice among four that differ pairwise, and only then.
proof fn lemma_distinct_four(a: Pubkey, b: Pubkey, c: Pubkey, d: Pubkey)
    ensures
        seq![a, b, c, d].no_duplicates() <==> {
            &&& a != b && a != c && a != d
            &&& b != c && b != d
            &&& c != d
        },
{
    let s = seq![a, b, c, d];
    assert(s[0] == a && s[1] == b && s[2] == c && s[3] == d);
}

/// No address occurs twice among three that differ pairwise, and only then.
proof fn lemma_distinct_three(a: Pubkey, b: Pubkey, c: Pubkey)
    ensures
        seq![a, b, c].no_duplicates() <==> a != b && a != c && b != c,
{
    let s = seq![a, b, c];
    assert(s[0] == a && s[1] == b && s[2] == c);
}

/// An approval is refused for the first of these that is wrong, and for nothing
/// else: the buyer's signature, the accounts, the status, or a fee above the
/// amount.
pub proof fn law_refusals_of_approvals(
    program_id: Pubkey,
    before: ApproveAndRelease,
    after: ApproveAndRelease,
    tip_amount: u64,
    res: Result<Settlement<Released>, ProgramError>,
)
    requires
        approve_and_release_result(
            before,
            after,
            settlement_addresses(program_id, before.config, before.escrow),
            tip_amount,
            res,
        ),
    ensures
        ({
            let deal = before.escrow.data;
            let config = before.config.data;
            let vault = canonical(vault_seeds(before.escrow.key), program_id@);
            let refusal = match res {
                Ok(_) => None,
                Err(e) => Some(e),
            };
            refusal == (if !before.buyer.is_signer {
                Some(ProgramError::Account(AccountError::AccountNotSigner))
            } else if before.token_program@ != TOKEN_PROGRAM_ID@ {
                Some(ProgramError::Account(AccountError::InvalidProgramId))
            } else if !(before.escrow.key != before.vault.key
                && before.escrow.key != before.buyer_token.key
                && before.escrow.key != before.seller_token.key
                && before.escrow.key != before.fee_vault.key
               
                && before.vault.key != before.buyer_token.key
                && before.vault.key != before.seller_token.key
                && before.vault.key != before.fee_vault.key
               
                && before.buyer_token.key != before.seller_token.key
                && before.buyer_token.key != before.fee_vault.key
                && before.seller_token.key != before.fee_vault.key) {
                Some(ProgramError::Account(AccountError::ConstraintDuplicateMutableAccount))
            } else if program_address(config_seeds().push(seq![config.bump]), program_id@)
                != Some(before.config.key@) {
                Some(ProgramError::Account(AccountError::ConstraintSeeds))
            } else if config.fee_vault != before.fee_vault.key {
                Some(ProgramError::Escrow(EscrowError::WrongFeeVault))
            } else if program_address(deal.signer_seeds(), program_id@) != Some(
                before.escrow.key@,
            ) {
                Some(ProgramError::Account(AccountError::ConstraintSeeds))
            } else if !before.escrow.is_writable {
                Some(ProgramError::Account(AccountError::ConstraintMut))
            } else if deal.buyer != before.buyer.key || deal.seller != before.seller {
                Some(ProgramError::Escrow(EscrowError::Unauthorized))
            } else if vault is None {
                Some(ProgramError::Account(AccountError::NoProgramAddress))
            } else if !(vault matches Some((address, _)) && address == before.vault.key@) {
                Some(ProgramError::Account(AccountError::ConstraintSeeds))
            } else if !before.vault.is_writable {
                Some(ProgramError::Account(AccountError::ConstraintMut))
            } else if before.vault.data.owner != before.escrow.key {
                Some(ProgramError::Account(AccountError::ConstraintTokenOwner))
            } else if !before.buyer.is_writable {
                Some(ProgramError::Account(AccountError::ConstraintMut))
            } else if !before.buyer_token.is_writable {
                Some(ProgramError::Account(AccountError::ConstraintMut))
            } else if before.buyer_token.data.owner != deal.buyer {
                Some(ProgramError::Account(AccountError::ConstraintTokenOwner))
            } else if before.buyer_token.data.mint != config.usdc_mint {
                Some(ProgramError::Account(AccountError::ConstraintTokenMint))
            } else if !before.seller_token.is_writable {
                Some(ProgramError::Account(AccountError::ConstraintMut))
            } else if before.seller_token.data.owner != deal.seller {
                Some(ProgramError::Account(AccountError::ConstraintTokenOwner))
            } else if before.seller_token.data.mint != config.usdc_mint {
                Some(ProgramError::Account(AccountError::ConstraintTokenMint))
            } else if !before.fee_vault.is_writable {
                Some(ProgramError::Account(AccountError::ConstraintMut))
            } else if deal.status !is Delivered {
                Some(ProgramError::Escrow(EscrowError::InvalidStatus))
            } else if (deal.amount * config.fee_bps / 10_000) % 0x1_0000_0000_0000_0000
                > deal.amount {
                Some(ProgramError::Escrow(EscrowError::MathOverflow))
            } else {
                None
            })
        }),
{
    lemma_distinct_five(
        before.escrow.key,
        before.vault.key,
        before.buyer_token.key,
        before.seller_token.key,
        before.fee_vault.key,
    );
}

/// A release after the review period is refused for the first of these that is
/// wrong, and for nothing else: the accounts, the status, the time before the
/// delivery and the review period together, or a fee above the amount.
pub proof fn law_refusals_of_timeouts(
    program_id: Pubkey,
    before: ReleaseAfterTimeout,
    after: ReleaseAfterTimeout,
    now: i64,
    res: Result<Settlement<Released>, ProgramError>,
)
    requires
        release_after_timeout_result(
            before,
            after,
            settlement_addresses(program_id, before.config, before.escrow),
            now,
            res,
        ),
    ensures
        ({
            let deal = before.escrow.data;
            let config = before.config.data;
            let vault = canonical(vault_seeds(before.escrow.key), program_id@);
            let refusal = match res {
                Ok(_) => None,
                Err(e) => Some(e),
            };
            refusal == (if before.token_program@ != TOKEN_PROGRAM_ID@ {
                Some(ProgramError::Account(AccountError::InvalidProgramId))
            } else if !(before.escrow.key != before.vault.key
                && before.escrow.key != before.seller_token.key
                && before.escrow.key != before.fee_vault.key
               
                && before.vault.key != before.seller_token.key
                && before.vault.key != before.fee_vault.key
                && before.seller_token.key != before.fee_vault.key) {
                Some(ProgramError::Account(AccountError::ConstraintDuplicateMutableAccount))
            } else if program_address(config_seeds().push(seq![config.bump]), program_id@)
                != Some(before.config.key@) {
                Some(ProgramError::Account(AccountError::ConstraintSeeds))
            } else if config.fee_vault != before.fee_vault.key {
                Some(ProgramError::Escrow(EscrowError::WrongFeeVault))
            } else if program_address(deal.signer_seeds(), program_id@) != Some(
                before.escrow.key@,
            ) {
                Some(ProgramError::Account(AccountError::ConstraintSeeds))
            } else if !before.escrow.is_writable {
                Some(ProgramError::Account(AccountError::ConstraintMut))
            } else if deal.buyer != before.buyer.key || deal.seller != before.seller {
                Some(ProgramError::Escrow(EscrowError::Unauthorized))
            } else if vault is None {
                Some(ProgramError::Account(AccountError::NoProgramAddress))
            } else if !(vault matches Some((address, _)) && address == before.vault.key@) {
                Some(ProgramError::Account(AccountError::ConstraintSeeds))
            } else if !before.vault.is_writable {
                Some(ProgramError::Account(AccountError::ConstraintMut))
            } else if before.vault.data.owner != before.escrow.key {
                Some(ProgramError::Account(AccountError::ConstraintTokenOwner))
            } else if !before.buyer.is_writable {
                Some(ProgramError::Account(AccountError::ConstraintMut))
            } else if !before.seller_token.is_writable {
                Some(ProgramError::Account(AccountError::ConstraintMut))
            } else if before.seller_token.data.owner != deal.seller {
                Some(ProgramError::Account(AccountError::ConstraintTokenOwner))
            } else if before.seller_token.data.mint != config.usdc_mint {
                Some(ProgramError::Account(AccountError::ConstraintTokenMint))
            } else if !before.fee_vault.is_writable {
                Some(ProgramError::Account(AccountError::ConstraintMut))
            } else if deal.status !is Delivered {
                Some(ProgramError::Escrow(EscrowError::InvalidStatus))
            } else if !(i64::MIN <= deal.delivered_at + deal.review_period <= i64::MAX) {
                Some(ProgramError::Escrow(EscrowError::MathOverflow))
            } else if now < deal.delivered_at + deal.review_period {
                Some(ProgramError::Escrow(EscrowError::ReviewPeriodNotOver))
            } else if (deal.amount * config.fee_bps / 10_000) % 0x1_0000_0000_0000_0000
                > deal.amount {
                Some(ProgramError::Escrow(EscrowError::MathOverflow))
            } else {
                None
            })
        }),
{
    lemma_distinct_four(
        before.escrow.key,
        before.vault.key,
        before.seller_token.key,
        before.fee_vault.key,
    );
}

/// A refund is refused for the first of these that is wrong, and for nothing
/// else: the accounts, the status, or the time before the creation and the
/// delivery deadline together.
pub proof fn law_refusals_of_refunds(
    program_id: Pubkey,
    before: RefundUndelivered,
    after: RefundUndelivered,
    now: i64,
    res: Result<Settlement<Refunded>, ProgramError>,
)
    requires
        refund_undelivered_result(
            before,
            after,
            settlement_addresses(program_id, before.config, before.escrow),
            now,
            res,
        ),
    ensures
        ({
            let deal = before.escrow.data;
            let config = before.config.data;
            let vault = canonical(vault_seeds(before.escrow.key), program_id@);
            let refusal = match res {
                Ok(_) => None,
                Err(e) => Some(e),
            };
            refusal == (if before.token_program@ != TOKEN_PROGRAM_ID@ {
                Some(ProgramError::Account(AccountError::InvalidProgramId))
            } else if !(before.escrow.key != before.vault.key
                && before.escrow.key != before.buyer_token.key
                && before.vault.key != before.buyer_token.key) {
                Some(ProgramError::Account(AccountError::ConstraintDuplicateMutableAccount))
            } else if program_address(config_seeds().push(seq![config.bump]), program_id@)
                != Some(before.config.key@) {
                Some(ProgramError::Account(AccountError::ConstraintSeeds))
            } else if program_address(deal.signer_seeds(), program_id@) != Some(
                before.escrow.key@,
            ) {
                Some(ProgramError::Account(AccountError::ConstraintSeeds))
            } else if !before.escrow.is_writable {
                Some(ProgramError::Account(AccountError::ConstraintMut))
            } else if deal.buyer != before.buyer.key {
                Some(ProgramError::Escrow(EscrowError::Unauthorized))
            } else if vault is None {
                Some(ProgramError::Account(AccountError::NoProgramAddress))
            } else if !(vault matches Some((address, _)) && address == before.vault.key@) {
                Some(ProgramError::Account(AccountError::ConstraintSeeds))
            } else if !before.vault.is_writable {
                Some(ProgramError::Account(AccountError::ConstraintMut))
            } else if before.vault.data.owner != before.escrow.key {
                Some(ProgramError::Account(AccountError::ConstraintTokenOwner))
            } else if !before.buyer.is_writable {
                Some(ProgramError::Account(AccountError::ConstraintMut))
            } else if !before.buyer_token.is_writable {
                Some(ProgramError::Account(AccountError::ConstraintMut))
            } else if before.buyer_token.data.owner != deal.buyer {
                Some(ProgramError::Account(AccountError::ConstraintTokenOwner))
            } else if before.buyer_token.data.mint != config.usdc_mint {
                Some(ProgramError::Account(AccountError::ConstraintTokenMint))
            } else if deal.status !is Funded {
                Some(ProgramError::Escrow(EscrowError::InvalidStatus))
            } else if !(i64::MIN <= deal.created_at + config.delivery_deadline <= i64::MAX) {
                Some(ProgramError::Escrow(EscrowError::MathOverflow))
            } else if now < deal.created_at + config.delivery_deadline {
                Some(ProgramError::Escrow(EscrowError::DeliveryDeadlineNotOver))
            } else {
                None
            })
        }),
{
    lemma_distinct_three(before.escrow.key, before.vault.key, before.buyer_token.key);
}

/// A decision is refused for the first of these that is wrong, and for nothing
/// else: the arbiter's signature, the accounts, the status, a share above the
/// whole, or a fee above the share.
pub proof fn law_refusals_of_decisions(
    program_id: Pubkey,
    before: ResolveDispute,
    after: ResolveDispute,
    seller_bps: u16,
    res: Result<Settlement<DisputeResolved>, ProgramError>,
)
    requires
        resolve_dispute_result(
            before,
            after,
            settlement_addresses(program_id, before.config, before.escrow),
            seller_bps,
            res,
        ),
    ensures
        ({
            let deal = before.escrow.data;
            let config = before.config.data;
            let vault = canonical(vault_seeds(before.escrow.key), program_id@);
            let gross = deal.amount * seller_bps / 10_000;
            let refusal = match res {
                Ok(_) => None,
                Err(e) => Some(e),
            };
            refusal == (if !before.arbiter.is_signer {
                Some(ProgramError::Account(AccountError::AccountNotSigner))
            } else if before.token_program@ != TOKEN_PROGRAM_ID@ {
                Some(ProgramError::Account(AccountError::InvalidProgramId))
            } else if !(before.escrow.key != before.vault.key
                && before.escrow.key != before.buyer_token.key
                && before.escrow.key != before.seller_token.key
                && before.escrow.key != before.fee_vault.key
               
                && before.vault.key != before.buyer_token.key
                && before.vault.key != before.seller_token.key
                && before.vault.key != before.fee_vault.key
               
                && before.buyer_token.key != before.seller_token.key
                && before.buyer_token.key != before.fee_vault.key
                && before.seller_token.key != before.fee_vault.key) {
                Some(ProgramError::Account(AccountError::ConstraintDuplicateMutableAccount))
            } else if program_address(config_seeds().push(seq![config.bump]), program_id@)
                != Some(before.config.key@) {
                Some(ProgramError::Account(AccountError::ConstraintSeeds))
            } else if config.arbiter != before.arbiter.key {
                Some(ProgramError::Escrow(EscrowError::Unauthorized))
            } else if config.fee_vault != before.fee_vault.key {
                Some(ProgramError::Escrow(EscrowError::WrongFeeVault))
            } else if program_address(deal.signer_seeds(), program_id@) != Some(
                before.escrow.key@,
            ) {
                Some(ProgramError::Account(AccountError::ConstraintSeeds))
            } else if !before.escrow.is_writable {
                Some(ProgramError::Account(AccountError::ConstraintMut))
            } else if deal.buyer != before.buyer.key || deal.seller != before.seller {
                Some(ProgramError::Escrow(EscrowError::Unauthorized))
            } else if vault is None {
                Some(ProgramError::Account(AccountError::NoProgramAddress))
            } else if !(vault matches Some((address, _)) && address == before.vault.key@) {
                Some(ProgramError::Account(AccountError::ConstraintSeeds))
            } else if !before.vault.is_writable {
                Some(ProgramError::Account(AccountError::ConstraintMut))
            } else if before.vault.data.owner != before.escrow.key {
                Some(ProgramError::Account(AccountError::ConstraintTokenOwner))
            } else if !before.buyer.is_writable {
                Some(ProgramError::Account(AccountError::ConstraintMut))
            } else if !before.buyer_token.is_writable {
                Some(ProgramError::Account(AccountError::ConstraintMut))
            } else if before.buyer_token.data.owner != deal.buyer {
                Some(ProgramError::Account(AccountError::ConstraintTokenOwner))
            } else if before.buyer_token.data.mint != config.usdc_mint {
                Some(ProgramError::Account(AccountError::ConstraintTokenMint))
            } else if !before.seller_token.is_writable {
                Some(ProgramError::Account(AccountError::ConstraintMut))
            } else if before.seller_token.data.owner != deal.seller {
                Some(ProgramError::Account(AccountError::ConstraintTokenOwner))
            } else if before.seller_token.data.mint != config.usdc_mint {
                Some(ProgramError::Account(AccountError::ConstraintTokenMint))
            } else if !before.fee_vault.is_writable {
                Some(ProgramError::Account(AccountError::ConstraintMut))
            } else if deal.status !is Disputed {
                Some(ProgramError::Escrow(EscrowError::InvalidStatus))
            } else if seller_bps > 10_000 {
                Some(ProgramError::Escrow(EscrowError::InvalidBps))
            } else if (gross * config.fee_bps / 10_000) % 0x1_0000_0000_0000_0000 > gross {
                Some(ProgramError::Escrow(EscrowError::MathOverflow))
            } else {
                None
            })
        }),
{
    lemma_distinct_five(
        before.escrow.key,
        before.vault.key,
        before.buyer_token.key,
        before.seller_token.key,
        before.fee_vault.key,
    );
    if seller_bps <= 10_000 {
        lemma_share_bounds(before.escrow.data.amount, seller_bps, seller_bps);
    }
}

/// A delivery is refused for the first of these that is wrong, and for nothing
/// else: the seller's signature, the account, the seller, or the status.
pub proof fn law_refusals_of_deliveries(
    program_id: Pubkey,
    before: MarkDelivered,
    after: MarkDelivered,
    now: i64,
    res: Result<Delivered, ProgramError>,
)
    requires
        mark_delivered_result(
            before,
            after,
            program_address(before.escrow.data.signer_seeds(), program_id@),
            now,
            res,
        ),
    ensures
        ({
            let deal = before.escrow.data;
            let refusal = match res {
                Ok(_) => None,
                Err(e) => Some(e),
            };
            refusal == (if !before.seller.is_signer {
                Some(ProgramError::Account(AccountError::AccountNotSigner))
            } else if program_address(deal.signer_seeds(), program_id@) != Some(
                before.escrow.key@,
            ) {
                Some(ProgramError::Account(AccountError::ConstraintSeeds))
            } else if !before.escrow.is_writable {
                Some(ProgramError::Account(AccountError::ConstraintMut))
            } else if deal.seller != before.seller.key {
                Some(ProgramError::Escrow(EscrowError::Unauthorized))
            } else if deal.status !is Funded {
                Some(ProgramError::Escrow(EscrowError::InvalidStatus))
            } else {
                None
            })
        }),
{
}

/// A dispute is refused for the first of these that is wrong, and for nothing
/// else: the signature, the account, the status, a stranger, or the time from the
/// delivery and the review period together on.
pub proof fn law_refusals_of_disputes(
    program_id: Pubkey,
    before: OpenDispute,
    after: OpenDispute,
    now: i64,
    res: Result<DisputeOpened, ProgramError>,
)
    requires
        open_dispute_result(
            before,
            after,
            program_address(before.escrow.data.signer_seeds(), program_id@),
            now,
            res,
        ),
    ensures
        ({
            let deal = before.escrow.data;
            let refusal = match res {
                Ok(_) => None,
                Err(e) => Some(e),
            };
            refusal == (if !before.party.is_signer {
                Some(ProgramError::Account(AccountError::AccountNotSigner))
            } else if program_address(deal.signer_seeds(), program_id@) != Some(
                before.escrow.key@,
            ) {
                Some(ProgramError::Account(AccountError::ConstraintSeeds))
            } else if !before.escrow.is_writable {
                Some(ProgramError::Account(AccountError::ConstraintMut))
            } else if deal.status !is Delivered {
                Some(ProgramError::Escrow(EscrowError::InvalidStatus))
            } else if before.party.key != deal.buyer && before.party.key != deal.seller {
                Some(ProgramError::Escrow(EscrowError::Unauthorized))
            } else if !(i64::MIN <= deal.delivered_at + deal.review_period <= i64::MAX) {
                Some(ProgramError::Escrow(EscrowError::MathOverflow))
            } else if now >= deal.delivered_at + deal.review_period {
                Some(ProgramError::Escrow(EscrowError::TooLateForDispute))
            } else {
                None
            })
        }),
{
}

/// A creation is refused for the first of these that is wrong, and for nothing
/// else: the buyer's signature, the accounts, a pause, no amount, an amount above
/// the cap, or a buyer who is the seller.
pub proof fn law_refusals_of_creations(
    program_id: Pubkey,
    before: CreateAndFund,
    order_id: u64,
    amount: u64,
    instant_delivery: bool,
    now: i64,
    res: Result<Creation, ProgramError>,
)
    requires
        create_and_fund_result(
            program_id,
            before,
            creation_addresses(program_id, before, order_id),
            order_id,
            amount,
            instant_delivery,
            now,
            res,
        ),
    ensures
        ({
            let config = before.config.data;
            let place = canonical(
                escrow_seeds(order_id, before.buyer.key, before.seller),
                program_id@,
            );
            let vault = canonical(vault_seeds(before.escrow.key), program_id@);
            let refusal = match res {
                Ok(_) => None,
                Err(e) => Some(e),
            };
            refusal == (if !before.buyer.is_signer {
                Some(ProgramError::Account(AccountError::AccountNotSigner))
            } else if before.token_program@ != TOKEN_PROGRAM_ID@ {
                Some(ProgramError::Account(AccountError::InvalidProgramId))
            } else if before.system_program@ != SYSTEM_PROGRAM_ID@ {
                Some(ProgramError::Account(AccountError::InvalidProgramId))
            } else if place is None {
                Some(ProgramError::Account(AccountError::NoProgramAddress))
            } else if !(place matches Some((address, _)) && address == before.escrow.key@) {
                Some(ProgramError::Account(AccountError::ConstraintSeeds))
            } else if before.escrow.in_use {
                Some(ProgramError::Account(AccountError::AccountAlreadyInUse))
            } else if vault is None {
                Some(ProgramError::Account(AccountError::NoProgramAddress))
            } else if !(vault matches Some((address, _)) && address == before.vault.key@) {
                Some(ProgramError::Account(AccountError::ConstraintSeeds))
            } else if before.vault.in_use {
                Some(ProgramError::Account(AccountError::AccountAlreadyInUse))
            } else if program_address(config_seeds().push(seq![config.bump]), program_id@)
                != Some(before.config.key@) {
                Some(ProgramError::Account(AccountError::ConstraintSeeds))
            } else if !before.buyer.is_writable {
                Some(ProgramError::Account(AccountError::ConstraintMut))
            } else if !before.buyer_token.is_writable {
                Some(ProgramError::Account(AccountError::ConstraintMut))
            } else if before.buyer_token.data.owner != before.buyer.key {
                Some(ProgramError::Account(AccountError::ConstraintTokenOwner))
            } else if before.buyer_token.data.mint != before.usdc_mint {
                Some(ProgramError::Account(AccountError::ConstraintTokenMint))
            } else if before.usdc_mint != config.usdc_mint {
                Some(ProgramError::Escrow(EscrowError::WrongMint))
            } else if config.paused {
                Some(ProgramError::Escrow(EscrowError::ProtocolPaused))
            } else if amount == 0 {
                Some(ProgramError::Escrow(EscrowError::ZeroAmount))
            } else if amount > config.max_deal_amount {
                Some(ProgramError::Escrow(EscrowError::DealTooLarge))
            } else if before.buyer.key == before.seller {
                Some(ProgramError::Escrow(EscrowError::SelfDeal))
            } else {
                None
            })
        }),
{
}

/// An initialisation is refused for the first of these that is wrong, and for
/// nothing else: the payer's signature, the accounts, a fee above ten percent, no
/// cap, or a review period under an hour or over thirty days.
pub proof fn law_refusals_of_initialisations(
    program_id: Pubkey,
    before: InitializeConfig,
    fee_bps: u16,
    default_review_period: i64,
    delivery_deadline: i64,
    max_deal_amount: u64,
    res: Result<Initialization, ProgramError>,
)
    requires
        initialize_config_result(
            program_id,
            before,
            canonical(config_seeds(), program_id@),
            fee_bps,
            default_review_period,
            delivery_deadline,
            max_deal_amount,
            res,
        ),
    ensures
        ({
            let place = canonical(config_seeds(), program_id@);
            let refusal = match res {
                Ok(_) => None,
                Err(e) => Some(e),
            };
            refusal == (if !before.payer.is_signer {
                Some(ProgramError::Account(AccountError::AccountNotSigner))
            } else if before.system_program@ != SYSTEM_PROGRAM_ID@ {
                Some(ProgramError::Account(AccountError::InvalidProgramId))
            } else if place is None {
                Some(ProgramError::Account(AccountError::NoProgramAddress))
            } else if !(place matches Some((address, _)) && address == before.config.key@) {
                Some(ProgramError::Account(AccountError::ConstraintSeeds))
            } else if before.config.in_use {
                Some(ProgramError::Account(AccountError::AccountAlreadyInUse))
            } else if before.fee_vault.data.mint != before.usdc_mint {
                Some(ProgramError::Account(AccountError::ConstraintTokenMint))
            } else if !before.payer.is_writable {
                Some(ProgramError::Account(AccountError::ConstraintMut))
            } else if fee_bps > 1_000 {
                Some(ProgramError::Escrow(EscrowError::FeeTooHigh))
            } else if max_deal_amount == 0 {
                Some(ProgramError::Escrow(EscrowError::ZeroAmount))
            } else if !(3_600 <= default_review_period <= 2_592_000) {
                Some(ProgramError::Escrow(EscrowError::InvalidReviewPeriod))
            } else {
                None
            })
        }),
{
}

/// An update is refused for the first of these that is wrong, and for nothing
/// else: the admin's signature, the account, the admin, or a given fee, review
/// period or cap outside the hard limits.
pub proof fn law_refusals_of_updates(
    program_id: Pubkey,
    before: UpdateConfig,
    after: UpdateConfig,
    fee_bps: Option<u16>,
    default_review_period: Option<i64>,
    arbiter: Option<Pubkey>,
    paused: Option<bool>,
    max_deal_amount: Option<u64>,
    res: Result<(), ProgramError>,
)
    requires
        update_config_result(
            before,
            after,
            program_address(config_seeds().push(seq![before.config.data.bump]), program_id@),
            fee_bps,
            default_review_period,
            arbiter,
            paused,
            max_deal_amount,
            res,
        ),
    ensures
        ({
            let config = before.config.data;
            let refusal = match res {
                Ok(_) => None,
                Err(e) => Some(e),
            };
            refusal == (if !before.admin.is_signer {
                Some(ProgramError::Account(AccountError::AccountNotSigner))
            } else if program_address(config_seeds().push(seq![config.bump]), program_id@)
                != Some(before.config.key@) {
                Some(ProgramError::Account(AccountError::ConstraintSeeds))
            } else if !before.config.is_writable {
                Some(ProgramError::Account(AccountError::ConstraintMut))
            } else if config.admin != before.admin.key {
                Some(ProgramError::Escrow(EscrowError::Unauthorized))
            } else if fee_bps is Some && fee_bps->0 > 1_000 {
                Some(ProgramError::Escrow(EscrowError::FeeTooHigh))
            } else if default_review_period is Some && !(3_600 <= default_review_period->0 <= 2_592_000) {
                Some(ProgramError::Escrow(EscrowError::InvalidReviewPeriod))
            } else if max_deal_amount == Some(0u64) {
                Some(ProgramError::Escrow(EscrowError::ZeroAmount))
            } else {
                None
            })
        }),
{
}

} // verus!

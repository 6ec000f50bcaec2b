use vydex_escrow::accounts::{Account, AccountInfo, TokenAccount};
use vydex_escrow::action::{Action, CloseAccount, Transfer};
use vydex_escrow::address::{
    derive_settlement_addresses, find_config_address, find_escrow_address, find_vault_address,
    signer_seeds, Addresses,
};
use vydex_escrow::constants::TOKEN_PROGRAM_ID;
use vydex_escrow::delivery::{mark_delivered, mark_delivered_at, MarkDelivered};
use vydex_escrow::dispute::{
    open_dispute, open_dispute_at, resolve_dispute, resolve_dispute_at, OpenDispute,
    ResolveDispute,
};
use vydex_escrow::error::{AccountError, EscrowError, ProgramError};
use vydex_escrow::event::{
    Delivered, DisputeOpened, DisputeResolved, RefundReason, Refunded, ReleaseReason, Released,
};
use vydex_escrow::payout::{payout_to_seller, refund_to_buyer};
use vydex_escrow::pubkey::Pubkey;
use vydex_escrow::refund::{refund_undelivered, refund_undelivered_at, RefundUndelivered};
use vydex_escrow::release::{
    approve_and_release, approve_and_release_at, release_after_timeout, release_after_timeout_at,
    ApproveAndRelease, ReleaseAfterTimeout,
};
use vydex_escrow::state::{Config, Escrow, EscrowStatus};

const PROGRAM: Pubkey = Pubkey { bytes: [7; 32] };
const CREATED: i64 = 1_700_000_000;
const DELIVERED: i64 = 1_700_100_000;
const REVIEW: i64 = 259_200;
const DEADLINE: i64 = 1_209_600;

fn key(n: u8) -> Pubkey {
    Pubkey { bytes: [n; 32] }
}

fn account(error: AccountError) -> ProgramError {
    ProgramError::Account(error)
}

fn escrow(error: EscrowError) -> ProgramError {
    ProgramError::Escrow(error)
}

fn wallet(n: u8) -> AccountInfo {
    AccountInfo { key: key(n), is_signer: true, is_writable: true }
}

fn token(n: u8, owner: Pubkey) -> Account<TokenAccount> {
    Account { key: key(n), is_writable: true, data: TokenAccount { mint: key(3), owner } }
}

fn config() -> Account<Config> {
    let (key_, bump) = find_config_address(&PROGRAM).unwrap();
    Account {
        key: key_,
        is_writable: false,
        data: Config {
            admin: key(1),
            arbiter: key(2),
            usdc_mint: key(3),
            fee_vault: key(23),
            fee_bps: 500,
            default_review_period: REVIEW,
            delivery_deadline: DEADLINE,
            max_deal_amount: 200_000_000,
            paused: false,
            bump,
        },
    }
}

fn deal(status: EscrowStatus) -> Account<Escrow> {
    let (key_, bump) = find_escrow_address(&PROGRAM, 42, &key(11), &key(12)).unwrap();
    Account {
        key: key_,
        is_writable: true,
        data: Escrow {
            order_id: 42,
            buyer: key(11),
            seller: key(12),
            amount: 1_000_001,
            tip: 0,
            created_at: CREATED,
            delivered_at: if status == EscrowStatus::Funded { 0 } else { DELIVERED },
            review_period: REVIEW,
            status,
            bump,
        },
    }
}

fn vault() -> Account<TokenAccount> {
    let deal = deal(EscrowStatus::Funded).key;
    Account {
        key: find_vault_address(&PROGRAM, &deal).unwrap().0,
        is_writable: true,
        data: TokenAccount { mint: key(3), owner: deal },
    }
}

fn approve_ctx(status: EscrowStatus) -> ApproveAndRelease {
    ApproveAndRelease {
        config: config(),
        escrow: deal(status),
        vault: vault(),
        buyer: wallet(11),
        seller: key(12),
        buyer_token: token(21, key(11)),
        seller_token: token(22, key(12)),
        fee_vault: token(23, key(9)),
        token_program: Pubkey { bytes: TOKEN_PROGRAM_ID },
    }
}

fn timeout_ctx(status: EscrowStatus) -> ReleaseAfterTimeout {
    ReleaseAfterTimeout {
        config: config(),
        escrow: deal(status),
        vault: vault(),
        buyer: AccountInfo { key: key(11), is_signer: false, is_writable: true },
        seller: key(12),
        seller_token: token(22, key(12)),
        fee_vault: token(23, key(9)),
        token_program: Pubkey { bytes: TOKEN_PROGRAM_ID },
    }
}

fn refund_ctx(status: EscrowStatus) -> RefundUndelivered {
    RefundUndelivered {
        config: config(),
        escrow: deal(status),
        vault: vault(),
        buyer: AccountInfo { key: key(11), is_signer: false, is_writable: true },
        buyer_token: token(21, key(11)),
        token_program: Pubkey { bytes: TOKEN_PROGRAM_ID },
    }
}

fn resolve_ctx(status: EscrowStatus) -> ResolveDispute {
    ResolveDispute {
        config: config(),
        arbiter: wallet(2),
        escrow: deal(status),
        vault: vault(),
        buyer: AccountInfo { key: key(11), is_signer: false, is_writable: true },
        seller: key(12),
        buyer_token: token(21, key(11)),
        seller_token: token(22, key(12)),
        fee_vault: token(23, key(9)),
        token_program: Pubkey { bytes: TOKEN_PROGRAM_ID },
    }
}

fn paid(to: u8, amount: u64) -> Action {
    Action::SignedTransfer(Transfer {
        from: vault().key,
        to: key(to),
        authority: deal(EscrowStatus::Funded).key,
        amount,
    })
}

fn closed() -> Action {
    Action::SignedClose(CloseAccount {
        account: vault().key,
        destination: key(11),
        authority: deal(EscrowStatus::Funded).key,
    })
}

fn delivery_ctx(status: EscrowStatus) -> MarkDelivered {
    MarkDelivered { escrow: deal(status), seller: wallet(12) }
}

fn dispute_ctx(status: EscrowStatus, party: u8) -> OpenDispute {
    OpenDispute { escrow: deal(status), party: wallet(party) }
}

const OTHER_THAN_DELIVERED: [EscrowStatus; 5] = [
    EscrowStatus::Funded,
    EscrowStatus::Disputed,
    EscrowStatus::Released,
    EscrowStatus::Refunded,
    EscrowStatus::Split,
];

#[test]
fn seller_delivers() {
    let mut ctx = delivery_ctx(EscrowStatus::Funded);
    let before = ctx.escrow.data;
    let event = mark_delivered(&PROGRAM, &mut ctx, DELIVERED).unwrap();
    assert_eq!(event, Delivered { escrow: ctx.escrow.key, delivered_at: DELIVERED });
    assert_eq!(
        ctx.escrow.data,
        Escrow { status: EscrowStatus::Delivered, delivered_at: DELIVERED, ..before }
    );
}

#[test]
fn delivery_is_refused() {
    for status in [
        EscrowStatus::Delivered,
        EscrowStatus::Disputed,
        EscrowStatus::Released,
        EscrowStatus::Refunded,
        EscrowStatus::Split,
    ] {
        let mut ctx = delivery_ctx(status);
        let before = ctx;
        let refused = mark_delivered(&PROGRAM, &mut ctx, DELIVERED).unwrap_err();
        assert_eq!(refused, escrow(EscrowError::InvalidStatus));
        assert_eq!(ctx, before);
    }
    let mut ctx = delivery_ctx(EscrowStatus::Funded);
    ctx.seller.key = key(11);
    let refused = mark_delivered(&PROGRAM, &mut ctx, DELIVERED).unwrap_err();
    assert_eq!(refused, escrow(EscrowError::Unauthorized));
    let mut ctx = delivery_ctx(EscrowStatus::Funded);
    ctx.seller.is_signer = false;
    let refused = mark_delivered(&PROGRAM, &mut ctx, DELIVERED).unwrap_err();
    assert_eq!(refused, account(AccountError::AccountNotSigner));
    let mut ctx = delivery_ctx(EscrowStatus::Funded);
    ctx.escrow.is_writable = false;
    let refused = mark_delivered(&PROGRAM, &mut ctx, DELIVERED).unwrap_err();
    assert_eq!(refused, account(AccountError::ConstraintMut));
    let mut ctx = delivery_ctx(EscrowStatus::Funded);
    ctx.escrow.data.order_id = 43;
    let refused = mark_delivered(&PROGRAM, &mut ctx, DELIVERED).unwrap_err();
    assert_eq!(refused, account(AccountError::ConstraintSeeds));
}

#[test]
fn delivery_at_given_address() {
    let mut ctx = delivery_ctx(EscrowStatus::Funded);
    ctx.escrow.key = key(77);
    assert!(mark_delivered_at(&Some(key(77)), &mut ctx, 5).is_ok());
    let refused = mark_delivered_at(&None, &mut ctx, 5).unwrap_err();
    assert_eq!(refused, account(AccountError::ConstraintSeeds));
}

#[test]
fn approval_pays_the_seller_and_the_tip() {
    let mut ctx = approve_ctx(EscrowStatus::Delivered);
    let before = ctx.escrow.data;
    let done = approve_and_release(&PROGRAM, &mut ctx, 777).unwrap();
    assert_eq!(
        done.actions,
        vec![
            Action::Transfer(Transfer {
                from: key(21),
                to: key(22),
                authority: key(11),
                amount: 777,
            }),
            paid(22, 950_001),
            paid(23, 50_000),
            closed(),
        ]
    );
    assert_eq!(done.signer_seeds, signer_seeds(&before));
    assert_eq!(
        done.event,
        Released { escrow: ctx.escrow.key, reason: ReleaseReason::BuyerApproved, tip: 777 }
    );
    assert_eq!(ctx.escrow.data, Escrow { status: EscrowStatus::Released, tip: 777, ..before });
}

#[test]
fn approval_without_tip_or_fee() {
    let mut ctx = approve_ctx(EscrowStatus::Delivered);
    ctx.config.data.fee_bps = 0;
    let done = approve_and_release(&PROGRAM, &mut ctx, 0).unwrap();
    assert_eq!(done.actions, vec![paid(22, 1_000_001), closed()]);
    assert_eq!(ctx.escrow.data.tip, 0);
}

#[test]
fn approval_is_refused() {
    for status in OTHER_THAN_DELIVERED {
        let mut ctx = approve_ctx(status);
        let before = ctx;
        let refused = approve_and_release(&PROGRAM, &mut ctx, 5).unwrap_err();
        assert_eq!(refused, escrow(EscrowError::InvalidStatus));
        assert_eq!(ctx, before);
    }
    let try_ctx = |mut ctx: ApproveAndRelease| {
        approve_and_release(&PROGRAM, &mut ctx, 5).unwrap_err()
    };
    let good = approve_ctx(EscrowStatus::Delivered);
    let mut ctx = good;
    ctx.buyer.is_signer = false;
    assert_eq!(try_ctx(ctx), account(AccountError::AccountNotSigner));
    let mut ctx = good;
    ctx.token_program = key(0);
    assert_eq!(try_ctx(ctx), account(AccountError::InvalidProgramId));
    let mut ctx = good;
    ctx.seller_token = ctx.buyer_token;
    assert_eq!(try_ctx(ctx), account(AccountError::ConstraintDuplicateMutableAccount));
    let mut ctx = good;
    ctx.config.key = key(90);
    assert_eq!(try_ctx(ctx), account(AccountError::ConstraintSeeds));
    let mut ctx = good;
    ctx.fee_vault.key = key(24);
    assert_eq!(try_ctx(ctx), escrow(EscrowError::WrongFeeVault));
    let mut ctx = good;
    ctx.escrow.key = key(90);
    assert_eq!(try_ctx(ctx), account(AccountError::ConstraintSeeds));
    let mut ctx = good;
    ctx.escrow.is_writable = false;
    assert_eq!(try_ctx(ctx), account(AccountError::ConstraintMut));
    let mut ctx = good;
    ctx.buyer.key = key(12);
    assert_eq!(try_ctx(ctx), escrow(EscrowError::Unauthorized));
    let mut ctx = good;
    ctx.seller = key(11);
    assert_eq!(try_ctx(ctx), escrow(EscrowError::Unauthorized));
    let mut ctx = good;
    ctx.vault.key = key(90);
    assert_eq!(try_ctx(ctx), account(AccountError::ConstraintSeeds));
    let mut ctx = good;
    ctx.vault.is_writable = false;
    assert_eq!(try_ctx(ctx), account(AccountError::ConstraintMut));
    let mut ctx = good;
    ctx.vault.data.owner = key(11);
    assert_eq!(try_ctx(ctx), account(AccountError::ConstraintTokenOwner));
    let mut ctx = good;
    ctx.buyer.is_writable = false;
    assert_eq!(try_ctx(ctx), account(AccountError::ConstraintMut));
    let mut ctx = good;
    ctx.buyer_token.data.mint = key(33);
    assert_eq!(try_ctx(ctx), account(AccountError::ConstraintTokenMint));
    let mut ctx = good;
    ctx.seller_token.data.owner = key(99);
    assert_eq!(try_ctx(ctx), account(AccountError::ConstraintTokenOwner));
    let mut ctx = good;
    ctx.seller_token.data.mint = key(33);
    assert_eq!(try_ctx(ctx), account(AccountError::ConstraintTokenMint));
    let mut ctx = good;
    ctx.fee_vault.is_writable = false;
    assert_eq!(try_ctx(ctx), account(AccountError::ConstraintMut));
    let mut ctx = good;
    ctx.config.data.fee_bps = 10_001;
    assert_eq!(try_ctx(ctx), escrow(EscrowError::MathOverflow));
}

#[test]
fn settlement_without_a_vault_address() {
    let mut ctx = approve_ctx(EscrowStatus::Delivered);
    let at = derive_settlement_addresses(&PROGRAM, &ctx.config, &ctx.escrow);
    let none = Addresses { vault: None, ..at };
    let refused = approve_and_release_at(&none, &mut ctx, 5).unwrap_err();
    assert_eq!(refused, account(AccountError::NoProgramAddress));
    assert!(approve_and_release_at(&at, &mut ctx, 5).is_ok());
}

#[test]
fn timeout_releases_from_the_deadline_on() {
    let mut ctx = timeout_ctx(EscrowStatus::Delivered);
    let before = ctx;
    let refused = release_after_timeout(&PROGRAM, &mut ctx, DELIVERED + REVIEW - 1).unwrap_err();
    assert_eq!(refused, escrow(EscrowError::ReviewPeriodNotOver));
    assert_eq!(ctx, before);
    let done = release_after_timeout(&PROGRAM, &mut ctx, DELIVERED + REVIEW).unwrap();
    assert_eq!(done.actions, vec![paid(22, 950_001), paid(23, 50_000), closed()]);
    assert_eq!(done.signer_seeds, signer_seeds(&before.escrow.data));
    assert_eq!(
        done.event,
        Released { escrow: ctx.escrow.key, reason: ReleaseReason::Timeout, tip: 0 }
    );
    assert_eq!(
        ctx.escrow.data,
        Escrow { status: EscrowStatus::Released, ..before.escrow.data }
    );
    let again = release_after_timeout(&PROGRAM, &mut ctx, i64::MAX).unwrap_err();
    assert_eq!(again, escrow(EscrowError::InvalidStatus));
}

#[test]
fn timeout_is_refused() {
    for status in OTHER_THAN_DELIVERED {
        let mut ctx = timeout_ctx(status);
        let refused = release_after_timeout(&PROGRAM, &mut ctx, i64::MAX).unwrap_err();
        assert_eq!(refused, escrow(EscrowError::InvalidStatus));
    }
    let mut ctx = timeout_ctx(EscrowStatus::Delivered);
    ctx.escrow.data.delivered_at = i64::MAX;
    let refused = release_after_timeout(&PROGRAM, &mut ctx, i64::MAX).unwrap_err();
    assert_eq!(refused, escrow(EscrowError::MathOverflow));
    let mut ctx = timeout_ctx(EscrowStatus::Delivered);
    ctx.token_program = key(0);
    let refused = release_after_timeout(&PROGRAM, &mut ctx, i64::MAX).unwrap_err();
    assert_eq!(refused, account(AccountError::InvalidProgramId));
    let mut ctx = timeout_ctx(EscrowStatus::Delivered);
    ctx.seller_token.data.owner = key(11);
    let refused = release_after_timeout(&PROGRAM, &mut ctx, i64::MAX).unwrap_err();
    assert_eq!(refused, account(AccountError::ConstraintTokenOwner));
    let mut ctx = timeout_ctx(EscrowStatus::Delivered);
    ctx.fee_vault.key = key(24);
    let refused = release_after_timeout(&PROGRAM, &mut ctx, i64::MAX).unwrap_err();
    assert_eq!(refused, escrow(EscrowError::WrongFeeVault));
    let mut ctx = timeout_ctx(EscrowStatus::Delivered);
    let at = derive_settlement_addresses(&PROGRAM, &ctx.config, &ctx.escrow);
    let none = Addresses { config: None, ..at };
    let refused = release_after_timeout_at(&none, &mut ctx, i64::MAX).unwrap_err();
    assert_eq!(refused, account(AccountError::ConstraintSeeds));
}

#[test]
fn pause_leaves_open_deals_alone() {
    let mut ctx = timeout_ctx(EscrowStatus::Delivered);
    ctx.config.data.paused = true;
    ctx.config.data.default_review_period = 2_592_000;
    ctx.config.data.max_deal_amount = 1;
    assert!(release_after_timeout(&PROGRAM, &mut ctx, DELIVERED + REVIEW).is_ok());
    let mut ctx = refund_ctx(EscrowStatus::Funded);
    ctx.config.data.paused = true;
    assert!(refund_undelivered(&PROGRAM, &mut ctx, CREATED + DEADLINE).is_ok());
    let mut ctx = resolve_ctx(EscrowStatus::Disputed);
    ctx.config.data.paused = true;
    assert!(resolve_dispute(&PROGRAM, &mut ctx, 1).is_ok());
}

#[test]
fn undelivered_work_is_refunded_from_the_deadline_on() {
    let mut ctx = refund_ctx(EscrowStatus::Funded);
    let before = ctx;
    let refused = refund_undelivered(&PROGRAM, &mut ctx, CREATED + DEADLINE - 1).unwrap_err();
    assert_eq!(refused, escrow(EscrowError::DeliveryDeadlineNotOver));
    assert_eq!(ctx, before);
    let done = refund_undelivered(&PROGRAM, &mut ctx, CREATED + DEADLINE).unwrap();
    assert_eq!(done.actions, vec![paid(21, 1_000_001), closed()]);
    assert_eq!(done.signer_seeds, signer_seeds(&before.escrow.data));
    assert_eq!(
        done.event,
        Refunded { escrow: ctx.escrow.key, reason: RefundReason::NotDelivered }
    );
    assert_eq!(
        ctx.escrow.data,
        Escrow { status: EscrowStatus::Refunded, ..before.escrow.data }
    );
}

#[test]
fn refund_is_refused() {
    for status in [
        EscrowStatus::Delivered,
        EscrowStatus::Disputed,
        EscrowStatus::Released,
        EscrowStatus::Refunded,
        EscrowStatus::Split,
    ] {
        let mut ctx = refund_ctx(status);
        let refused = refund_undelivered(&PROGRAM, &mut ctx, i64::MAX).unwrap_err();
        assert_eq!(refused, escrow(EscrowError::InvalidStatus));
    }
    let mut ctx = refund_ctx(EscrowStatus::Funded);
    ctx.config.data.delivery_deadline = i64::MAX;
    let refused = refund_undelivered(&PROGRAM, &mut ctx, i64::MAX).unwrap_err();
    assert_eq!(refused, escrow(EscrowError::MathOverflow));
    let mut ctx = refund_ctx(EscrowStatus::Funded);
    ctx.token_program = key(0);
    let refused = refund_undelivered(&PROGRAM, &mut ctx, i64::MAX).unwrap_err();
    assert_eq!(refused, account(AccountError::InvalidProgramId));
    let mut ctx = refund_ctx(EscrowStatus::Funded);
    ctx.buyer.key = key(13);
    let refused = refund_undelivered(&PROGRAM, &mut ctx, i64::MAX).unwrap_err();
    assert_eq!(refused, escrow(EscrowError::Unauthorized));
    let mut ctx = refund_ctx(EscrowStatus::Funded);
    ctx.buyer_token.data.owner = key(13);
    let refused = refund_undelivered(&PROGRAM, &mut ctx, i64::MAX).unwrap_err();
    assert_eq!(refused, account(AccountError::ConstraintTokenOwner));
    let mut ctx = refund_ctx(EscrowStatus::Funded);
    ctx.buyer_token.key = ctx.vault.key;
    let refused = refund_undelivered(&PROGRAM, &mut ctx, i64::MAX).unwrap_err();
    assert_eq!(refused, account(AccountError::ConstraintDuplicateMutableAccount));
    let mut ctx = refund_ctx(EscrowStatus::Funded);
    let at = derive_settlement_addresses(&PROGRAM, &ctx.config, &ctx.escrow);
    let none = Addresses { escrow: None, ..at };
    let refused = refund_undelivered_at(&none, &mut ctx, i64::MAX).unwrap_err();
    assert_eq!(refused, account(AccountError::ConstraintSeeds));
}

#[test]
fn parties_dispute_before_the_deadline() {
    for party in [11u8, 12] {
        let mut ctx = dispute_ctx(EscrowStatus::Delivered, party);
        let before = ctx.escrow.data;
        let event = open_dispute(&PROGRAM, &mut ctx, DELIVERED + REVIEW - 1).unwrap();
        assert_eq!(event, DisputeOpened { escrow: ctx.escrow.key, opened_by: key(party) });
        assert_eq!(ctx.escrow.data, Escrow { status: EscrowStatus::Disputed, ..before });
    }
}

#[test]
fn dispute_is_refused() {
    for status in OTHER_THAN_DELIVERED {
        let mut ctx = dispute_ctx(status, 11);
        let refused = open_dispute(&PROGRAM, &mut ctx, DELIVERED).unwrap_err();
        assert_eq!(refused, escrow(EscrowError::InvalidStatus));
    }
    let mut ctx = dispute_ctx(EscrowStatus::Delivered, 13);
    let before = ctx;
    let refused = open_dispute(&PROGRAM, &mut ctx, DELIVERED).unwrap_err();
    assert_eq!(refused, escrow(EscrowError::Unauthorized));
    assert_eq!(ctx, before);
    let mut ctx = dispute_ctx(EscrowStatus::Delivered, 11);
    let refused = open_dispute(&PROGRAM, &mut ctx, DELIVERED + REVIEW).unwrap_err();
    assert_eq!(refused, escrow(EscrowError::TooLateForDispute));
    let mut ctx = dispute_ctx(EscrowStatus::Delivered, 11);
    ctx.escrow.data.review_period = i64::MAX;
    let refused = open_dispute(&PROGRAM, &mut ctx, DELIVERED).unwrap_err();
    assert_eq!(refused, escrow(EscrowError::MathOverflow));
    let mut ctx = dispute_ctx(EscrowStatus::Delivered, 11);
    ctx.party.is_signer = false;
    let refused = open_dispute(&PROGRAM, &mut ctx, DELIVERED).unwrap_err();
    assert_eq!(refused, account(AccountError::AccountNotSigner));
    let mut ctx = dispute_ctx(EscrowStatus::Delivered, 11);
    let refused = open_dispute_at(&Some(key(5)), &mut ctx, DELIVERED).unwrap_err();
    assert_eq!(refused, account(AccountError::ConstraintSeeds));
}

#[test]
fn arbiter_splits() {
    let mut ctx = resolve_ctx(EscrowStatus::Disputed);
    let before = ctx.escrow.data;
    let done = resolve_dispute(&PROGRAM, &mut ctx, 5_000).unwrap();
    assert_eq!(
        done.actions,
        vec![paid(22, 475_000), paid(23, 25_000), paid(21, 500_001), closed()]
    );
    assert_eq!(done.signer_seeds, signer_seeds(&before));
    assert_eq!(done.event, DisputeResolved { escrow: ctx.escrow.key, seller_bps: 5_000 });
    assert_eq!(ctx.escrow.data, Escrow { status: EscrowStatus::Split, ..before });
}

#[test]
fn arbiter_refunds_or_releases_in_full() {
    let mut ctx = resolve_ctx(EscrowStatus::Disputed);
    let done = resolve_dispute(&PROGRAM, &mut ctx, 0).unwrap();
    assert_eq!(done.actions, vec![paid(21, 1_000_001), closed()]);
    assert_eq!(ctx.escrow.data.status, EscrowStatus::Refunded);
    let mut ctx = resolve_ctx(EscrowStatus::Disputed);
    let done = resolve_dispute(&PROGRAM, &mut ctx, 10_000).unwrap();
    assert_eq!(done.actions, vec![paid(22, 950_001), paid(23, 50_000), closed()]);
    assert_eq!(ctx.escrow.data.status, EscrowStatus::Released);
}

#[test]
fn small_share_is_a_split_though_it_rounds_to_nothing() {
    let mut ctx = resolve_ctx(EscrowStatus::Disputed);
    ctx.escrow.data.amount = 9_999;
    let done = resolve_dispute(&PROGRAM, &mut ctx, 1).unwrap();
    assert_eq!(done.actions, vec![paid(21, 9_999), closed()]);
    assert_eq!(ctx.escrow.data.status, EscrowStatus::Split);
}

#[test]
fn every_share_between_nothing_and_everything_is_a_split() {
    for seller_bps in [1u16, 2_500, 9_999] {
        let mut ctx = resolve_ctx(EscrowStatus::Disputed);
        let before = ctx.escrow.data;
        resolve_dispute(&PROGRAM, &mut ctx, seller_bps).unwrap();
        assert_eq!(ctx.escrow.data, Escrow { status: EscrowStatus::Split, ..before });
        let again = resolve_dispute(&PROGRAM, &mut ctx, seller_bps).unwrap_err();
        assert_eq!(again, escrow(EscrowError::InvalidStatus));
    }
}

#[test]
fn statuses_keep_their_numbers() {
    assert_eq!(EscrowStatus::Funded as u8, 0);
    assert_eq!(EscrowStatus::Delivered as u8, 1);
    assert_eq!(EscrowStatus::Disputed as u8, 2);
    assert_eq!(EscrowStatus::Released as u8, 3);
    assert_eq!(EscrowStatus::Refunded as u8, 4);
    assert_eq!(EscrowStatus::Split as u8, 5);
}

#[test]
fn decision_is_refused() {
    for status in [
        EscrowStatus::Funded,
        EscrowStatus::Delivered,
        EscrowStatus::Released,
        EscrowStatus::Refunded,
        EscrowStatus::Split,
    ] {
        let mut ctx = resolve_ctx(status);
        let before = ctx;
        let refused = resolve_dispute(&PROGRAM, &mut ctx, 5_000).unwrap_err();
        assert_eq!(refused, escrow(EscrowError::InvalidStatus));
        assert_eq!(ctx, before);
    }
    let try_ctx = |mut ctx: ResolveDispute, bps: u16| {
        resolve_dispute(&PROGRAM, &mut ctx, bps).unwrap_err()
    };
    let good = resolve_ctx(EscrowStatus::Disputed);
    assert_eq!(try_ctx(good, 10_001), escrow(EscrowError::InvalidBps));
    let mut ctx = good;
    ctx.arbiter.is_signer = false;
    assert_eq!(try_ctx(ctx, 1), account(AccountError::AccountNotSigner));
    let mut ctx = good;
    ctx.token_program = key(0);
    assert_eq!(try_ctx(ctx, 1), account(AccountError::InvalidProgramId));
    let mut ctx = good;
    ctx.arbiter.key = key(1);
    assert_eq!(try_ctx(ctx, 1), escrow(EscrowError::Unauthorized));
    let mut ctx = good;
    ctx.fee_vault.key = key(24);
    assert_eq!(try_ctx(ctx, 1), escrow(EscrowError::WrongFeeVault));
    let mut ctx = good;
    ctx.fee_vault.key = ctx.seller_token.key;
    assert_eq!(try_ctx(ctx, 1), account(AccountError::ConstraintDuplicateMutableAccount));
    let mut ctx = good;
    ctx.buyer_token.data.owner = key(12);
    assert_eq!(try_ctx(ctx, 1), account(AccountError::ConstraintTokenOwner));
    let mut ctx = good;
    ctx.config.data.fee_bps = 20_000;
    assert_eq!(try_ctx(ctx, 10_000), escrow(EscrowError::MathOverflow));
    let at = derive_settlement_addresses(&PROGRAM, &good.config, &good.escrow);
    let mut ctx = good;
    let none = Addresses { vault: None, ..at };
    let refused = resolve_dispute_at(&none, &mut ctx, 1).unwrap_err();
    assert_eq!(refused, account(AccountError::NoProgramAddress));
}

#[test]
fn payouts_empty_the_vault() {
    let deal = deal(EscrowStatus::Delivered);
    let out = payout_to_seller(
        &deal,
        &vault(),
        &token(22, key(12)),
        &token(23, key(9)),
        &config(),
        &key(11),
    );
    assert_eq!(out.unwrap(), vec![paid(22, 950_001), paid(23, 50_000), closed()]);
    let mut greedy = config();
    greedy.data.fee_bps = 10_001;
    let refused = payout_to_seller(
        &deal,
        &vault(),
        &token(22, key(12)),
        &token(23, key(9)),
        &greedy,
        &key(11),
    );
    assert_eq!(refused, Err(escrow(EscrowError::MathOverflow)));
    let back = refund_to_buyer(&deal, &vault(), &token(21, key(11)), &key(11));
    assert_eq!(back, vec![paid(21, 1_000_001), closed()]);
}

#[test]
fn payout_with_the_whole_as_fee_still_pays_the_seller_nothing_first() {
    let mut all = config();
    all.data.fee_bps = 10_000;
    let out = payout_to_seller(
        &deal(EscrowStatus::Delivered),
        &vault(),
        &token(22, key(12)),
        &token(23, key(9)),
        &all,
        &key(11),
    );
    assert_eq!(out.unwrap(), vec![paid(22, 0), paid(23, 1_000_001), closed()]);
}

#[test]
fn no_deal_is_paid_out_twice() {
    let mut approve = approve_ctx(EscrowStatus::Delivered);
    approve_and_release(&PROGRAM, &mut approve, 0).unwrap();
    let after = approve.escrow;
    let again = approve_and_release(&PROGRAM, &mut approve, 0).unwrap_err();
    assert_eq!(again, escrow(EscrowError::InvalidStatus));
    let mut ctx = timeout_ctx(EscrowStatus::Delivered);
    ctx.escrow = after;
    let again = release_after_timeout(&PROGRAM, &mut ctx, i64::MAX).unwrap_err();
    assert_eq!(again, escrow(EscrowError::InvalidStatus));
    let mut ctx = refund_ctx(EscrowStatus::Funded);
    ctx.escrow = after;
    let again = refund_undelivered(&PROGRAM, &mut ctx, i64::MAX).unwrap_err();
    assert_eq!(again, escrow(EscrowError::InvalidStatus));
    let mut ctx = resolve_ctx(EscrowStatus::Disputed);
    ctx.escrow = after;
    let again = resolve_dispute(&PROGRAM, &mut ctx, 5_000).unwrap_err();
    assert_eq!(again, escrow(EscrowError::InvalidStatus));
}

#[test]
fn terms_stay_through_a_whole_life() {
    let start = deal(EscrowStatus::Funded);
    let mut deliver = delivery_ctx(EscrowStatus::Funded);
    mark_delivered(&PROGRAM, &mut deliver, DELIVERED).unwrap();
    let mut dispute = OpenDispute { escrow: deliver.escrow, party: wallet(11) };
    open_dispute(&PROGRAM, &mut dispute, DELIVERED + 1).unwrap();
    let mut resolve = resolve_ctx(EscrowStatus::Disputed);
    resolve.escrow = dispute.escrow;
    resolve_dispute(&PROGRAM, &mut resolve, 2_500).unwrap();
    assert_eq!(
        resolve.escrow.data,
        Escrow {
            status: EscrowStatus::Split,
            delivered_at: DELIVERED,
            ..start.data
        }
    );
}

/// Runs the steps on the vault's balance: what is left, or `None` where a
/// payment is not covered or the vault is not empty when it is closed.
fn run_on_vault(actions: &[Action], balance: u64) -> Option<u64> {
    let mut left = balance;
    for action in actions {
        match action {
            Action::SignedTransfer(t) => left = left.checked_sub(t.amount)?,
            Action::SignedClose(_) if left != 0 => return None,
            _ => {}
        }
    }
    Some(left)
}

#[test]
fn settlements_go_through_where_the_vault_holds_the_amount() {
    let mut approve = approve_ctx(EscrowStatus::Delivered);
    let mut runs = vec![approve_and_release(&PROGRAM, &mut approve, 777).unwrap().actions];
    let mut timeout = timeout_ctx(EscrowStatus::Delivered);
    runs.push(release_after_timeout(&PROGRAM, &mut timeout, DELIVERED + REVIEW).unwrap().actions);
    let mut refund = refund_ctx(EscrowStatus::Funded);
    runs.push(refund_undelivered(&PROGRAM, &mut refund, DELIVERED + 10_000_000).unwrap().actions);
    for seller_bps in [0u16, 1, 3_333, 9_999, 10_000] {
        let mut resolve = resolve_ctx(EscrowStatus::Disputed);
        runs.push(resolve_dispute(&PROGRAM, &mut resolve, seller_bps).unwrap().actions);
    }
    for actions in &runs {
        assert_eq!(run_on_vault(actions, 1_000_001), Some(0));
        assert_eq!(run_on_vault(actions, 1_000_000), None);
        assert_eq!(run_on_vault(actions, 1_000_002), None);
    }
}

use vydex_escrow::accounts::{Account, AccountInfo, NewAccount, TokenAccount};
use vydex_escrow::action::{Action, Transfer};
use vydex_escrow::address::{
    drop_bump, escrow_address, find_config_address, find_escrow_address, find_vault_address,
};
use vydex_escrow::constants::TOKEN_PROGRAM_ID;
use vydex_escrow::error::{AccountError, EscrowError, ProgramError};
use vydex_escrow::event::EscrowCreated;
use vydex_escrow::funding::{
    create_and_fund, create_and_fund_at, CreateAndFund, CreationAddresses,
};
use vydex_escrow::pubkey::Pubkey;
use vydex_escrow::state::{Config, Escrow, EscrowStatus};

const PROGRAM: Pubkey = Pubkey { bytes: [7; 32] };
const NOW: i64 = 1_700_000_000;

fn key(n: u8) -> Pubkey {
    Pubkey { bytes: [n; 32] }
}

fn account(error: AccountError) -> ProgramError {
    ProgramError::Account(error)
}

fn escrow(error: EscrowError) -> ProgramError {
    ProgramError::Escrow(error)
}

fn ctx() -> CreateAndFund {
    let (config_key, config_bump) = find_config_address(&PROGRAM).unwrap();
    let deal = find_escrow_address(&PROGRAM, 42, &key(11), &key(12)).unwrap().0;
    CreateAndFund {
        config: Account {
            key: config_key,
            is_writable: false,
            data: Config {
                admin: key(1),
                arbiter: key(2),
                usdc_mint: key(3),
                fee_vault: key(4),
                fee_bps: 500,
                default_review_period: 259_200,
                delivery_deadline: 1_209_600,
                max_deal_amount: 200_000_000,
                paused: false,
                bump: config_bump,
            },
        },
        escrow: NewAccount { key: deal, in_use: false },
        vault: NewAccount {
            key: drop_bump(find_vault_address(&PROGRAM, &deal)).unwrap(),
            in_use: false,
        },
        buyer: AccountInfo { key: key(11), is_signer: true, is_writable: true },
        seller: key(12),
        buyer_token: Account {
            key: key(21),
            is_writable: true,
            data: TokenAccount { mint: key(3), owner: key(11) },
        },
        usdc_mint: key(3),
        token_program: Pubkey { bytes: TOKEN_PROGRAM_ID },
        system_program: key(0),
    }
}

fn refusal(ctx: &CreateAndFund) -> ProgramError {
    create_and_fund(&PROGRAM, ctx, 42, 1_000_000, false, NOW).unwrap_err()
}

#[test]
fn ordered_work_starts_funded() {
    let ctx = ctx();
    let made = create_and_fund(&PROGRAM, &ctx, 42, 1_000_000, false, NOW).unwrap();
    let bump = find_escrow_address(&PROGRAM, 42, &key(11), &key(12)).unwrap().1;
    assert_eq!(
        made.escrow,
        Escrow {
            order_id: 42,
            buyer: key(11),
            seller: key(12),
            amount: 1_000_000,
            tip: 0,
            created_at: NOW,
            delivered_at: 0,
            review_period: 259_200,
            status: EscrowStatus::Funded,
            bump,
        }
    );
    assert_eq!(
        made.actions,
        vec![
            Action::CreateAccount {
                address: ctx.escrow.key,
                payer: key(11),
                space: 122,
                owner: PROGRAM,
            },
            Action::CreateTokenAccount {
                address: ctx.vault.key,
                payer: key(11),
                mint: key(3),
                authority: ctx.escrow.key,
            },
            Action::Transfer(Transfer {
                from: key(21),
                to: ctx.vault.key,
                authority: key(11),
                amount: 1_000_000,
            }),
        ]
    );
    assert_eq!(
        made.event,
        EscrowCreated {
            escrow: ctx.escrow.key,
            order_id: 42,
            buyer: key(11),
            seller: key(12),
            amount: 1_000_000,
            instant_delivery: false,
        }
    );
}

#[test]
fn ready_goods_start_delivered() {
    let made = create_and_fund(&PROGRAM, &ctx(), 42, 1, true, NOW).unwrap();
    assert_eq!(made.escrow.status, EscrowStatus::Delivered);
    assert_eq!(made.escrow.delivered_at, NOW);
    assert!(made.event.instant_delivery);
}

#[test]
fn created_deal_stands_at_its_address() {
    let ctx = ctx();
    let made = create_and_fund(&PROGRAM, &ctx, 42, 5, false, NOW).unwrap();
    assert_eq!(escrow_address(&PROGRAM, &made.escrow), Some(ctx.escrow.key));
}

#[test]
fn amount_is_within_the_cap() {
    let ctx = ctx();
    let try_amount = |amount: u64| {
        create_and_fund(&PROGRAM, &ctx, 42, amount, false, NOW).map(|c| c.escrow.amount)
    };
    assert_eq!(try_amount(200_000_000), Ok(200_000_000));
    assert_eq!(try_amount(200_000_001), Err(escrow(EscrowError::DealTooLarge)));
    assert_eq!(try_amount(0), Err(escrow(EscrowError::ZeroAmount)));
}

#[test]
fn pause_stops_new_deals() {
    let mut ctx = ctx();
    ctx.config.data.paused = true;
    assert_eq!(refusal(&ctx), escrow(EscrowError::ProtocolPaused));
}

#[test]
fn nobody_deals_with_themselves() {
    let mut ctx = ctx();
    ctx.seller = key(11);
    ctx.escrow.key = find_escrow_address(&PROGRAM, 42, &key(11), &key(11)).unwrap().0;
    ctx.vault.key = find_vault_address(&PROGRAM, &ctx.escrow.key).unwrap().0;
    assert_eq!(refusal(&ctx), escrow(EscrowError::SelfDeal));
}

#[test]
fn repeated_creation_is_refused() {
    let mut again = ctx();
    again.escrow.in_use = true;
    assert_eq!(refusal(&again), account(AccountError::AccountAlreadyInUse));
    let mut again = ctx();
    again.vault.in_use = true;
    assert_eq!(refusal(&again), account(AccountError::AccountAlreadyInUse));
}

#[test]
fn repeated_creation_is_refused_whatever_it_asks_for() {
    let mut again = ctx();
    let first = create_and_fund(&PROGRAM, &again, 42, 1_000_000, false, NOW).unwrap();
    assert_eq!(escrow_address(&PROGRAM, &first.escrow), Some(again.escrow.key));
    again.escrow.in_use = true;
    for (amount, instant_delivery) in [(1_000_000u64, false), (1, true), (0, false)] {
        let refused =
            create_and_fund(&PROGRAM, &again, 42, amount, instant_delivery, NOW + 1).unwrap_err();
        assert_eq!(refused, account(AccountError::AccountAlreadyInUse));
    }
}

#[test]
fn other_deals_have_other_accounts_and_vaults() {
    let base = ctx();
    let mut seen = vec![(base.escrow.key, base.vault.key)];
    for (order_id, buyer, seller) in [(43u64, 11u8, 12u8), (42, 13, 12), (42, 11, 13), (42, 12, 11)]
    {
        let mut other = base;
        other.buyer.key = key(buyer);
        other.buyer_token.data.owner = key(buyer);
        other.seller = key(seller);
        other.escrow.key =
            find_escrow_address(&PROGRAM, order_id, &key(buyer), &key(seller)).unwrap().0;
        other.vault.key = find_vault_address(&PROGRAM, &other.escrow.key).unwrap().0;
        let made = create_and_fund(&PROGRAM, &other, order_id, 5, false, NOW).unwrap();
        assert_eq!(made.escrow.order_id, order_id);
        for (deal, vault) in &seen {
            assert_ne!(*deal, other.escrow.key);
            assert_ne!(*vault, other.vault.key);
        }
        seen.push((other.escrow.key, other.vault.key));
    }
}

#[test]
fn creation_checks_its_accounts() {
    let mut bad = ctx();
    bad.buyer.is_signer = false;
    assert_eq!(refusal(&bad), account(AccountError::AccountNotSigner));
    let mut bad = ctx();
    bad.token_program = key(0);
    assert_eq!(refusal(&bad), account(AccountError::InvalidProgramId));
    let mut bad = ctx();
    bad.system_program = key(1);
    assert_eq!(refusal(&bad), account(AccountError::InvalidProgramId));
    let mut bad = ctx();
    bad.escrow.key = key(90);
    assert_eq!(refusal(&bad), account(AccountError::ConstraintSeeds));
    let mut bad = ctx();
    bad.vault.key = key(90);
    assert_eq!(refusal(&bad), account(AccountError::ConstraintSeeds));
    let mut bad = ctx();
    bad.config.key = key(90);
    assert_eq!(refusal(&bad), account(AccountError::ConstraintSeeds));
    let mut bad = ctx();
    bad.buyer.is_writable = false;
    assert_eq!(refusal(&bad), account(AccountError::ConstraintMut));
    let mut bad = ctx();
    bad.buyer_token.is_writable = false;
    assert_eq!(refusal(&bad), account(AccountError::ConstraintMut));
    let mut bad = ctx();
    bad.buyer_token.data.owner = key(13);
    assert_eq!(refusal(&bad), account(AccountError::ConstraintTokenOwner));
    let mut bad = ctx();
    bad.buyer_token.data.mint = key(33);
    assert_eq!(refusal(&bad), account(AccountError::ConstraintTokenMint));
    let mut bad = ctx();
    bad.usdc_mint = key(33);
    bad.buyer_token.data.mint = key(33);
    assert_eq!(refusal(&bad), escrow(EscrowError::WrongMint));
}

#[test]
fn creation_for_another_order_is_elsewhere() {
    let refused = create_and_fund(&PROGRAM, &ctx(), 43, 5, false, NOW).unwrap_err();
    assert_eq!(refused, account(AccountError::ConstraintSeeds));
}

#[test]
fn creation_at_given_addresses() {
    let mut ctx = ctx();
    ctx.escrow.key = key(70);
    ctx.vault.key = key(71);
    let at = CreationAddresses {
        config: Some(ctx.config.key),
        escrow: Some((key(70), 200)),
        vault: Some((key(71), 201)),
    };
    let made = create_and_fund_at(&PROGRAM, &at, &ctx, 1, 2, false, 3).unwrap();
    assert_eq!(made.escrow.bump, 200);
    assert_eq!(made.escrow.created_at, 3);
    let none = CreationAddresses { escrow: None, ..at };
    let refused = create_and_fund_at(&PROGRAM, &none, &ctx, 1, 2, false, 3).unwrap_err();
    assert_eq!(refused, account(AccountError::NoProgramAddress));
    let none = CreationAddresses { vault: None, ..at };
    let refused = create_and_fund_at(&PROGRAM, &none, &ctx, 1, 2, false, 3).unwrap_err();
    assert_eq!(refused, account(AccountError::NoProgramAddress));
}

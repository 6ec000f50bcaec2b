use anchor_lang::prelude::Pubkey as SolanaPubkey;
use vydex_escrow::address::{
    config_address, derive_settlement_addresses, drop_bump, escrow_address, find_config_address,
    find_escrow_address, find_vault_address, signer_seeds, stands_at,
};
use vydex_escrow::accounts::{all_distinct, is_system_program, is_token_program, Account};
use vydex_escrow::constants::{SYSTEM_PROGRAM_ID, TOKEN_PROGRAM_ID};
use vydex_escrow::pubkey::Pubkey;
use vydex_escrow::state::{Config, Escrow, EscrowStatus};

fn key(n: u8) -> Pubkey {
    Pubkey { bytes: [n; 32] }
}

fn program() -> SolanaPubkey {
    SolanaPubkey::new_from_array([7; 32])
}

fn deal(bump: u8) -> Escrow {
    Escrow {
        order_id: 0x0102030405060708,
        buyer: key(11),
        seller: key(12),
        amount: 1_000_000,
        tip: 0,
        created_at: 1_700_000_000,
        delivered_at: 0,
        review_period: 259_200,
        status: EscrowStatus::Funded,
        bump,
    }
}

fn config(bump: u8) -> Config {
    Config {
        admin: key(1),
        arbiter: key(2),
        usdc_mint: key(3),
        fee_vault: key(4),
        fee_bps: 500,
        default_review_period: 259_200,
        delivery_deadline: 1_209_600,
        max_deal_amount: 200_000_000,
        paused: false,
        bump,
    }
}

#[test]
fn equal_addresses_have_equal_bytes() {
    assert_eq!(key(1), key(1));
    assert_ne!(key(1), key(2));
    let mut other = key(1);
    other.bytes[31] = 0;
    assert_ne!(key(1), other);
}

#[test]
fn config_address_is_the_canonical_one() {
    let (expected, bump) = SolanaPubkey::find_program_address(&[b"config"], &program());
    let found = find_config_address(&key(7)).unwrap();
    assert_eq!(found, (Pubkey { bytes: expected.to_bytes() }, bump));
    assert_eq!(config_address(&key(7), bump), Some(found.0));
    assert_ne!(found.0, key(7));
}

#[test]
fn config_address_under_other_bumps() {
    for bump in 0..=255u8 {
        let expected = SolanaPubkey::create_program_address(&[b"config", &[bump]], &program());
        let expected = expected.ok().map(|k| Pubkey { bytes: k.to_bytes() });
        assert_eq!(config_address(&key(7), bump), expected);
    }
}

#[test]
fn escrow_address_follows_order_buyer_and_seller() {
    let order = 0x0102030405060708u64;
    let (expected, bump) = SolanaPubkey::find_program_address(
        &[b"escrow", &[8, 7, 6, 5, 4, 3, 2, 1], &[11; 32], &[12; 32]],
        &program(),
    );
    let found = find_escrow_address(&key(7), order, &key(11), &key(12)).unwrap();
    assert_eq!(found, (Pubkey { bytes: expected.to_bytes() }, bump));
    assert_eq!(escrow_address(&key(7), &deal(bump)), Some(found.0));
    assert_ne!(find_escrow_address(&key(7), order + 1, &key(11), &key(12)), Some(found));
    assert_ne!(find_escrow_address(&key(7), order, &key(12), &key(11)), Some(found));
    assert_ne!(find_escrow_address(&key(8), order, &key(11), &key(12)), Some(found));
}

#[test]
fn vault_address_follows_the_deal() {
    let (expected, bump) =
        SolanaPubkey::find_program_address(&[b"vault", &[21; 32]], &program());
    let found = find_vault_address(&key(7), &key(21));
    assert_eq!(found, Some((Pubkey { bytes: expected.to_bytes() }, bump)));
    assert_eq!(drop_bump(found), Some(Pubkey { bytes: expected.to_bytes() }));
    assert_eq!(drop_bump(None), None);
}

#[test]
fn signer_seeds_derive_the_address_of_the_deal() {
    let (address, bump) =
        find_escrow_address(&key(7), 0x0102030405060708, &key(11), &key(12)).unwrap();
    let seeds = signer_seeds(&deal(bump));
    assert_eq!(
        seeds,
        vec![
            b"escrow".to_vec(),
            vec![8, 7, 6, 5, 4, 3, 2, 1],
            vec![11; 32],
            vec![12; 32],
            vec![bump],
        ]
    );
    let slices: Vec<&[u8]> = seeds.iter().map(|s| s.as_slice()).collect();
    let derived = SolanaPubkey::create_program_address(&slices, &program()).unwrap();
    assert_eq!(derived.to_bytes(), address.bytes);
}

#[test]
fn settlement_addresses_are_those_of_the_accounts() {
    let (config_key, config_bump) = find_config_address(&key(7)).unwrap();
    let (deal_key, deal_bump) =
        find_escrow_address(&key(7), 0x0102030405060708, &key(11), &key(12)).unwrap();
    let config = Account { key: config_key, is_writable: false, data: config(config_bump) };
    let escrow = Account { key: deal_key, is_writable: true, data: deal(deal_bump) };
    let at = derive_settlement_addresses(&key(7), &config, &escrow);
    assert_eq!(at.config, Some(config_key));
    assert_eq!(at.escrow, Some(deal_key));
    assert_eq!(at.vault, drop_bump(find_vault_address(&key(7), &deal_key)));
    assert!(stands_at(&deal_key, &at.escrow));
    assert!(!stands_at(&config_key, &at.escrow));
    assert!(!stands_at(&config_key, &None));
}

#[test]
fn program_ids() {
    assert_eq!(TOKEN_PROGRAM_ID, anchor_spl::token::ID.to_bytes());
    assert_eq!(SYSTEM_PROGRAM_ID, anchor_lang::system_program::ID.to_bytes());
    assert!(is_token_program(&Pubkey { bytes: TOKEN_PROGRAM_ID }));
    assert!(!is_token_program(&key(0)));
    assert!(is_system_program(&key(0)));
    assert!(!is_system_program(&key(1)));
}

#[test]
fn distinct_addresses() {
    assert!(all_distinct(&[]));
    assert!(all_distinct(&[key(1), key(2), key(3)]));
    assert!(!all_distinct(&[key(1), key(2), key(1)]));
    assert!(!all_distinct(&[key(1), key(2), key(2)]));
}

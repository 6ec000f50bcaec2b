use vydex_escrow::constants::{CONFIG_SPACE, ESCROW_SPACE, MAX_REVIEW_PERIOD, MIN_REVIEW_PERIOD};
use vydex_escrow::error::{EscrowError, ProgramError};
use vydex_escrow::shares::{compute_share, split_fee, FeeSplit};

#[test]
fn shares_round_down() {
    assert_eq!(compute_share(200_000_000, 500), 10_000_000);
    assert_eq!(compute_share(19, 500), 0);
    assert_eq!(compute_share(20, 500), 1);
    assert_eq!(compute_share(9_999, 1), 0);
    assert_eq!(compute_share(u64::MAX, 10_000), u64::MAX);
    assert_eq!(compute_share(u64::MAX, 0), 0);
    assert_eq!(compute_share(0, 10_000), 0);
}

#[test]
fn shares_of_more_than_the_whole_keep_their_low_bits() {
    assert_eq!(compute_share(1_000, 65_535), 6_553);
    let whole = (u64::MAX as u128) * 65_535 / 10_000;
    assert_eq!(compute_share(u64::MAX, 65_535), whole as u64);
}

#[test]
fn fee_is_split_off() {
    assert_eq!(split_fee(1_000_000, 500), Ok(FeeSplit { fee: 50_000, net: 950_000 }));
    assert_eq!(split_fee(1_000_000, 0), Ok(FeeSplit { fee: 0, net: 1_000_000 }));
    assert_eq!(split_fee(1_000_000, 10_000), Ok(FeeSplit { fee: 1_000_000, net: 0 }));
}

#[test]
fn fee_at_the_cap_is_a_tenth() {
    let split = split_fee(u64::MAX, 1_000).unwrap();
    assert_eq!(split.fee, u64::MAX / 10);
}

#[test]
fn fee_above_the_amount_is_refused() {
    assert_eq!(
        split_fee(1_000_000, 10_001),
        Err(ProgramError::Escrow(EscrowError::MathOverflow))
    );
}

#[test]
fn sizes_and_limits() {
    assert_eq!(CONFIG_SPACE, 164);
    assert_eq!(ESCROW_SPACE, 122);
    assert_eq!(MIN_REVIEW_PERIOD, 3_600);
    assert_eq!(MAX_REVIEW_PERIOD, 2_592_000);
}

#[test]
fn errors_have_numbers_and_messages() {
    assert_eq!(EscrowError::FeeTooHigh.code(), 6000);
    assert_eq!(EscrowError::FeeTooHigh.message(), "Fee exceeds maximum allowed");
    assert_eq!(EscrowError::InvalidReviewPeriod.code(), 6001);
    assert_eq!(EscrowError::InvalidReviewPeriod.message(), "Invalid review period");
    assert_eq!(EscrowError::ProtocolPaused.code(), 6002);
    assert_eq!(EscrowError::ProtocolPaused.message(), "Protocol is paused");
    assert_eq!(EscrowError::ZeroAmount.code(), 6003);
    assert_eq!(EscrowError::ZeroAmount.message(), "Amount must be greater than zero");
    assert_eq!(EscrowError::SelfDeal.code(), 6004);
    assert_eq!(EscrowError::SelfDeal.message(), "Buyer and seller cannot be the same wallet");
    assert_eq!(EscrowError::InvalidStatus.code(), 6005);
    assert_eq!(EscrowError::InvalidStatus.message(), "Invalid escrow status for this action");
    assert_eq!(EscrowError::Unauthorized.code(), 6006);
    assert_eq!(EscrowError::Unauthorized.message(), "Unauthorized");
    assert_eq!(EscrowError::ReviewPeriodNotOver.code(), 6007);
    assert_eq!(EscrowError::ReviewPeriodNotOver.message(), "Review period is not over yet");
    assert_eq!(EscrowError::DeliveryDeadlineNotOver.code(), 6008);
    assert_eq!(
        EscrowError::DeliveryDeadlineNotOver.message(),
        "Delivery deadline is not over yet"
    );
    assert_eq!(EscrowError::TooLateForDispute.code(), 6009);
    assert_eq!(EscrowError::TooLateForDispute.message(), "Too late to open a dispute");
    assert_eq!(EscrowError::WrongMint.code(), 6010);
    assert_eq!(EscrowError::WrongMint.message(), "Wrong token mint");
    assert_eq!(EscrowError::WrongFeeVault.code(), 6011);
    assert_eq!(EscrowError::WrongFeeVault.message(), "Wrong fee vault");
    assert_eq!(EscrowError::InvalidBps.code(), 6012);
    assert_eq!(EscrowError::InvalidBps.message(), "Invalid basis points value");
    assert_eq!(EscrowError::MathOverflow.code(), 6013);
    assert_eq!(EscrowError::MathOverflow.message(), "Math overflow");
    assert_eq!(EscrowError::DealTooLarge.code(), 6014);
    assert_eq!(
        EscrowError::DealTooLarge.message(),
        "Deal amount exceeds current platform limit"
    );
}

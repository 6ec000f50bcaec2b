//! Parts of an amount in basis points.
use vstd::prelude::*;

use crate::constants::{BPS_DENOMINATOR, MAX_FEE_BPS};
use crate::error::{EscrowError, ProgramError};

verus! {

/// The part of an amount, rounded down.
pub open spec fn bps_part(amount: int, bps: int) -> int {
    amount * bps / BPS_DENOMINATOR as int
}

/// The part of an amount as it is computed: a part that does not fit in 64
/// bits, which only more than the whole can be, keeps its low bits.
pub open spec fn share(amount: u64, bps: u16) -> int {
    bps_part(amount as int, bps as int) % 0x1_0000_0000_0000_0000
}

/// A part is at most the whole, and grows with its basis points.
pub proof fn lemma_share_bounds(amount: u64, bps: u16, cap: u16)
    requires
        bps <= cap <= BPS_DENOMINATOR,
    ensures
        share(amount, bps) == bps_part(amount as int, bps as int),
        0 <= share(amount, bps) <= share(amount, cap) <= amount,
        share(amount, BPS_DENOMINATOR as u16) == amount,
        share(amount, 0) == 0,
{
    let a = amount as int;
    let b = bps as int;
    let c = cap as int;
    assert(0 <= a * b <= a * c <= a * 10000) by (nonlinear_arith)
        requires
            0 <= a,
            0 <= b <= c <= 10000,
    ;
    assert(a * 0 == 0);
    assert(0 <= bps_part(a, b) <= bps_part(a, c) <= a);
}

/// A part leaves out less than one unit of the exact proportion.
pub proof fn lemma_part_rounds_down(amount: u64, bps: u16)
    requires
        bps <= 10_000,
    ensures
        10_000 * share(amount, bps) <= amount * bps < 10_000 * (share(amount, bps) + 1),
{
    lemma_share_bounds(amount, bps, bps);
}

/// What a platform fee of at most the cap takes: at most a tenth.
pub proof fn lemma_fee_within_a_tenth(amount: u64, fee_bps: u16)
    requires
        fee_bps <= MAX_FEE_BPS,
    ensures
        0 <= 10 * share(amount, fee_bps) <= amount,
{
    lemma_share_bounds(amount, fee_bps, MAX_FEE_BPS);
    assert(bps_part(amount as int, 1000) == amount * 1000 / 10000);
}

/// Computes the part of an amount.
pub fn compute_share(amount: u64, bps: u16) -> (part: u64)
    ensures
        part == share(amount, bps),
        bps <= 10_000 ==> 10_000 * part <= amount * bps < 10_000 * (part + 1),
{
    assert(amount * bps <= 0xffff_ffff_ffff_ffff * 0xffff) by (nonlinear_arith)
        requires
            amount <= 0xffff_ffff_ffff_ffff,
            bps <= 0xffff,
    ;
    let scaled: u128 = (amount as u128) * (bps as u128);
    let part: u128 = scaled / (BPS_DENOMINATOR as u128);
    proof {
        if bps <= 10_000 {
            lemma_part_rounds_down(amount, bps);
        }
    }
    assert(#[verifier::truncate] (part as u64) == part % 0x1_0000_0000_0000_0000u128) by (bit_vector);
    #[verifier::truncate]
    (part as u64)
}

/// How an amount splits into the platform fee and the rest.
#[derive(Clone, Copy, Debug, PartialEq, Eq, Structural)]
pub struct FeeSplit {
    pub fee: u64,
    pub net: u64,
}

/// Takes the platform fee off an amount. A fee above the amount is refused.
pub fn split_fee(amount: u64, fee_bps: u16) -> (res: Result<FeeSplit, ProgramError>)
    ensures
        match res {
            Ok(split) => {
                &&& split.fee == share(amount, fee_bps)
                &&& split.net == amount - share(amount, fee_bps)
                &&& split.fee + split.net == amount
            },
            Err(e) => {
                &&& e == ProgramError::Escrow(EscrowError::MathOverflow)
                &&& share(amount, fee_bps) > amount
            },
        },
{
    let fee: u64 = compute_share(amount, fee_bps);
    match amount.checked_sub(fee) {
        Some(net) => Ok(FeeSplit { fee, net }),
        None => Err(ProgramError::Escrow(EscrowError::MathOverflow)),
    }
}

} // verus!

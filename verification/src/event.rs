//! What the instructions announce.
use vstd::prelude::*;

use crate::pubkey::Pubkey;

verus! {

/// A deal was created and funded.
#[derive(Clone, Copy, Debug, PartialEq, Eq)]
pub struct EscrowCreated {
    pub escrow: Pubkey,
    pub order_id: u64,
    pub buyer: Pubkey,
    pub seller: Pubkey,
    pub amount: u64,
    pub instant_delivery: bool,
}

/// The seller delivered.
#[derive(Clone, Copy, Debug, PartialEq, Eq)]
pub struct Delivered {
    pub escrow: Pubkey,
    pub delivered_at: i64,
}

/// Why a deal was released.
#[derive(Clone, Copy, Debug, PartialEq, Eq, Structural)]
pub enum ReleaseReason {
    BuyerApproved,
    Timeout,
}

/// A deal was paid out to the seller.
#[derive(Clone, Copy, Debug, PartialEq, Eq)]
pub struct Released {
    pub escrow: Pubkey,
    pub reason: ReleaseReason,
    pub tip: u64,
}

/// Why a deal was refunded.
#[derive(Clone, Copy, Debug, PartialEq, Eq, Structural)]
pub enum RefundReason {
    NotDelivered,
}

/// A deal was paid back to the buyer.
#[derive(Clone, Copy, Debug, PartialEq, Eq)]
pub struct Refunded {
    pub escrow: Pubkey,
    pub reason: RefundReason,
}

/// A party disputed a deal.
#[derive(Clone, Copy, Debug, PartialEq, Eq)]
pub struct DisputeOpened {
    pub escrow: Pubkey,
    pub opened_by: Pubkey,
}

/// The arbiter decided a dispute.
#[derive(Clone, Copy, Debug, PartialEq, Eq)]
pub struct DisputeResolved {
    pub escrow: Pubkey,
    pub seller_bps: u16,
}

} // verus!

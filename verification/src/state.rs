//! The stored state: the global configuration and the deals.
use vstd::prelude::*;

use crate::constants::{MAX_FEE_BPS, MAX_REVIEW_PERIOD, MIN_REVIEW_PERIOD};
use crate::pubkey::Pubkey;

verus! {

/// The global configuration.
#[derive(Clone, Copy, Debug, PartialEq, Eq)]
pub struct Config {
    /// The multisig that may change the configuration.
    pub admin: Pubkey,
    /// The multisig that decides disputes.
    pub arbiter: Pubkey,
    /// The token that deals are paid in.
    pub usdc_mint: Pubkey,
    /// The token account that collects the platform fee.
    pub fee_vault: Pubkey,
    /// The platform fee in basis points.
    pub fee_bps: u16,
    /// The review period of new deals, in seconds.
    pub default_review_period: i64,
    /// Seconds after creation until an undelivered deal can be refunded.
    pub delivery_deadline: i64,
    /// The largest amount of a new deal.
    pub max_deal_amount: u64,
    /// Whether new deals are stopped.
    pub paused: bool,
    /// The bump of the configuration's address.
    pub bump: u8,
}

/// Where a deal stands. It is over once it is released to the seller, refunded
/// to the buyer, or split between them.
#[derive(Clone, Copy, Debug, PartialEq, Eq, Structural)]
pub enum EscrowStatus {
    Funded,
    Delivered,
    Disputed,
    Released,
    Refunded,
    Split,
}

/// One deal.
#[derive(Clone, Copy, Debug, PartialEq, Eq)]
pub struct Escrow {
    pub order_id: u64,
    pub buyer: Pubkey,
    pub seller: Pubkey,
    /// The price, in the smallest units of the token.
    pub amount: u64,
    /// The tip that the buyer added on approval.
    pub tip: u64,
    /// When the deal was funded, in seconds since the epoch.
    pub created_at: i64,
    /// When the work was delivered; zero before.
    pub delivered_at: i64,
    /// The review period in seconds, fixed at creation.
    pub review_period: i64,
    pub status: EscrowStatus,
    /// The bump of the deal's address.
    pub bump: u8,
}

/// Whether a review period lies within the hard limits.
pub open spec fn review_period_allowed(period: i64) -> bool {
    MIN_REVIEW_PERIOD <= period <= MAX_REVIEW_PERIOD
}

impl Config {
    /// The hard caps that every stored configuration keeps.
    pub open spec fn valid(self) -> bool {
        &&& self.fee_bps <= MAX_FEE_BPS
        &&& self.max_deal_amount > 0
        &&& review_period_allowed(self.default_review_period)
    }
}

impl Escrow {
    /// What holds of every stored deal.
    pub open spec fn valid(self) -> bool {
        &&& self.amount > 0
        &&& self.buyer != self.seller
        &&& review_period_allowed(self.review_period)
        &&& self.status is Funded ==> self.delivered_at == 0
        &&& self.status !is Released ==> self.tip == 0
    }

    /// Whether two states are of one deal on the same terms: everything but the
    /// status, the delivery time and the tip.
    pub open spec fn same_terms(self, other: Escrow) -> bool {
        self == (Escrow {
            status: self.status,
            delivered_at: self.delivered_at,
            tip: self.tip,
            ..other
        })
    }

    /// Whether the deal is over.
    pub open spec fn settled(self) -> bool {
        self.status is Released || self.status is Refunded || self.status is Split
    }

    /// The moment from which the review of delivered work is over.
    pub open spec fn review_deadline(self) -> int {
        self.delivered_at + self.review_period
    }

    /// The moment from which undelivered work can be refunded.
    pub open spec fn delivery_deadline(self, config: Config) -> int {
        self.created_at + config.delivery_deadline
    }
}

} // verus!

//! Escrow of token payments between a buyer and a seller.

pub mod accounts;
pub mod action;
pub mod address;
pub mod configure;
pub mod constants;
pub mod delivery;
pub mod dispute;
pub mod error;
pub mod event;
pub mod funding;
pub mod laws;
pub mod lifecycle;
pub mod outcomes;
pub mod payout;
pub mod pubkey;
pub mod refund;
pub mod refusals;
pub mod release;
pub mod shares;
pub mod state;

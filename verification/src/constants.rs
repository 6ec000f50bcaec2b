//! Address seeds, limits and account sizes.
use vstd::prelude::*;

verus! {

/// Seed of the address of the global configuration: the bytes of `config`.
pub const CONFIG_SEED: [u8; 6] = [0x63, 0x6f, 0x6e, 0x66, 0x69, 0x67];

/// First seed of the address of a deal: the bytes of `escrow`.
pub const ESCROW_SEED: [u8; 6] = [0x65, 0x73, 0x63, 0x72, 0x6f, 0x77];

/// First seed of the address of a deal's vault: the bytes of `vault`.
pub const VAULT_SEED: [u8; 5] = [0x76, 0x61, 0x75, 0x6c, 0x74];

/// The address of the token program.
pub const TOKEN_PROGRAM_ID: [u8; 32] = [
    0x06, 0xdd, 0xf6, 0xe1, 0xd7, 0x65, 0xa1, 0x93, 0xd9, 0xcb, 0xe1, 0x46, 0xce, 0xeb, 0x79, 0xac,
    0x1c, 0xb4, 0x85, 0xed, 0x5f, 0x5b, 0x37, 0x91, 0x3a, 0x8c, 0xf5, 0x85, 0x7e, 0xff, 0x00, 0xa9,
];

/// The address of the system program.
pub const SYSTEM_PROGRAM_ID: [u8; 32] = [
    0x00, 0x00, 0x00, 0x00, 0x00, 0x00, 0x00, 0x00, 0x00, 0x00, 0x00, 0x00, 0x00, 0x00, 0x00, 0x00,
    0x00, 0x00, 0x00, 0x00, 0x00, 0x00, 0x00, 0x00, 0x00, 0x00, 0x00, 0x00, 0x00, 0x00, 0x00, 0x00,
];

/// The highest platform fee, in basis points: ten percent.
pub const MAX_FEE_BPS: u16 = 1_000;

/// The shortest review period, in seconds: one hour.
pub const MIN_REVIEW_PERIOD: i64 = 60 * 60;

/// The longest review period, in seconds: thirty days.
pub const MAX_REVIEW_PERIOD: i64 = 30 * 24 * 60 * 60;

/// The number of basis points in a whole.
pub const BPS_DENOMINATOR: u64 = 10_000;

/// Bytes of a configuration account: an eight byte discriminator, four
/// addresses, the fee, two periods, the deal cap, the pause flag and the bump.
pub const CONFIG_SPACE: u64 = 8 + 4 * 32 + 2 + 8 + 8 + 8 + 1 + 1;

/// Bytes of a deal account: an eight byte discriminator, the order number, two
/// addresses, the amount, the tip, two times, the review period, the status and
/// the bump.
pub const ESCROW_SPACE: u64 = 8 + 8 + 2 * 32 + 8 + 8 + 8 + 8 + 8 + 1 + 1;

} // verus!

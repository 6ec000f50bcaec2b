//! What an instruction can fail with.
use vstd::prelude::*;

verus! {

/// Refusals of the escrow rules themselves.
#[derive(Clone, Copy, Debug, PartialEq, Eq, Structural)]
pub enum EscrowError {
    FeeTooHigh,
    InvalidReviewPeriod,
    ProtocolPaused,
    ZeroAmount,
    SelfDeal,
    InvalidStatus,
    Unauthorized,
    ReviewPeriodNotOver,
    DeliveryDeadlineNotOver,
    TooLateForDispute,
    WrongMint,
    WrongFeeVault,
    InvalidBps,
    MathOverflow,
    DealTooLarge,
}

/// Refusals of the accounts that an instruction was handed.
#[derive(Clone, Copy, Debug, PartialEq, Eq, Structural)]
pub enum AccountError {
    /// An account that has to sign did not.
    AccountNotSigner,
    /// An account that has to be a certain program is not.
    InvalidProgramId,
    /// An account that has to be writable is not.
    ConstraintMut,
    /// An account does not stand at the address that its seeds derive.
    ConstraintSeeds,
    /// No bump makes the seeds derive an address.
    NoProgramAddress,
    /// An account that is to be created exists already.
    AccountAlreadyInUse,
    /// Two of the accounts that are written are the same account.
    ConstraintDuplicateMutableAccount,
    /// A token account belongs to someone else.
    ConstraintTokenOwner,
    /// A token account holds another token.
    ConstraintTokenMint,
}

/// Any refusal of an instruction.
#[derive(Clone, Copy, Debug, PartialEq, Eq, Structural)]
pub enum ProgramError {
    Escrow(EscrowError),
    Account(AccountError),
}

impl EscrowError {
    /// The position of the error in the order of declaration.
    pub open spec fn index(self) -> int {
        match self {
            EscrowError::FeeTooHigh => 0,
            EscrowError::InvalidReviewPeriod => 1,
            EscrowError::ProtocolPaused => 2,
            EscrowError::ZeroAmount => 3,
            EscrowError::SelfDeal => 4,
            EscrowError::InvalidStatus => 5,
            EscrowError::Unauthorized => 6,
            EscrowError::ReviewPeriodNotOver => 7,
            EscrowError::DeliveryDeadlineNotOver => 8,
            EscrowError::TooLateForDispute => 9,
            EscrowError::WrongMint => 10,
            EscrowError::WrongFeeVault => 11,
            EscrowError::InvalidBps => 12,
            EscrowError::MathOverflow => 13,
            EscrowError::DealTooLarge => 14,
        }
    }

    /// The number under which clients see the error: custom errors count
    /// from 6000.
    pub fn code(&self) -> (code: u32)
        ensures
            code == 6000 + self.index(),
    {
        match self {
            EscrowError::FeeTooHigh => 6000,
            EscrowError::InvalidReviewPeriod => 6001,
            EscrowError::ProtocolPaused => 6002,
            EscrowError::ZeroAmount => 6003,
            EscrowError::SelfDeal => 6004,
            EscrowError::InvalidStatus => 6005,
            EscrowError::Unauthorized => 6006,
            EscrowError::ReviewPeriodNotOver => 6007,
            EscrowError::DeliveryDeadlineNotOver => 6008,
            EscrowError::TooLateForDispute => 6009,
            EscrowError::WrongMint => 6010,
            EscrowError::WrongFeeVault => 6011,
            EscrowError::InvalidBps => 6012,
            EscrowError::MathOverflow => 6013,
            EscrowError::DealTooLarge => 6014,
        }
    }

    /// What the error says.
    pub open spec fn text(self) -> Seq<char> {
        match self {
            EscrowError::FeeTooHigh => "Fee exceeds maximum allowed"@,
            EscrowError::InvalidReviewPeriod => "Invalid review period"@,
            EscrowError::ProtocolPaused => "Protocol is paused"@,
            EscrowError::ZeroAmount => "Amount must be greater than zero"@,
            EscrowError::SelfDeal => "Buyer and seller cannot be the same wallet"@,
            EscrowError::InvalidStatus => "Invalid escrow status for this action"@,
            EscrowError::Unauthorized => "Unauthorized"@,
            EscrowError::ReviewPeriodNotOver => "Review period is not over yet"@,
            EscrowError::DeliveryDeadlineNotOver => "Delivery deadline is not over yet"@,
            EscrowError::TooLateForDispute => "Too late to open a dispute"@,
            EscrowError::WrongMint => "Wrong token mint"@,
            EscrowError::WrongFeeVault => "Wrong fee vault"@,
            EscrowError::InvalidBps => "Invalid basis points value"@,
            EscrowError::MathOverflow => "Math overflow"@,
            EscrowError::DealTooLarge => "Deal amount exceeds current platform limit"@,
        }
    }

    /// The message of the error.
    pub fn message(&self) -> (text: &'static str)
        ensures
            text@ == self.text(),
    {
        match self {
            EscrowError::FeeTooHigh => "Fee exceeds maximum allowed",
            EscrowError::InvalidReviewPeriod => "Invalid review period",
            EscrowError::ProtocolPaused => "Protocol is paused",
            EscrowError::ZeroAmount => "Amount must be greater than zero",
            EscrowError::SelfDeal => "Buyer and seller cannot be the same wallet",
            EscrowError::InvalidStatus => "Invalid escrow status for this action",
            EscrowError::Unauthorized => "Unauthorized",
            EscrowError::ReviewPeriodNotOver => "Review period is not over yet",
            EscrowError::DeliveryDeadlineNotOver => "Delivery deadline is not over yet",
            EscrowError::TooLateForDispute => "Too late to open a dispute",
            EscrowError::WrongMint => "Wrong token mint",
            EscrowError::WrongFeeVault => "Wrong fee vault",
            EscrowError::InvalidBps => "Invalid basis points value",
            EscrowError::MathOverflow => "Math overflow",
            EscrowError::DealTooLarge => "Deal amount exceeds current platform limit",
        }
    }
}

} // verus!

//! The accounts that an instruction is handed, and the rules on one of them.
use vstd::prelude::*;

use crate::address::{address_bytes, stands_at};
use crate::constants::{SYSTEM_PROGRAM_ID, TOKEN_PROGRAM_ID};
use crate::error::{AccountError, EscrowError, ProgramError};
use crate::pubkey::{lemma_pubkey_ext, Pubkey};
use crate::state::Escrow;

verus! {

/// An account whose contents are read, decoded.
#[derive(Clone, Copy, Debug, PartialEq, Eq)]
pub struct Account<T> {
    pub key: Pubkey,
    pub is_writable: bool,
    pub data: T,
}

/// An account of which only the address and the flags matter.
#[derive(Clone, Copy, Debug, PartialEq, Eq)]
pub struct AccountInfo {
    pub key: Pubkey,
    pub is_signer: bool,
    pub is_writable: bool,
}

/// An account that is to be created.
#[derive(Clone, Copy, Debug, PartialEq, Eq)]
pub struct NewAccount {
    pub key: Pubkey,
    /// Whether the address holds data or belongs to a program already. Lamports
    /// alone do not count: an account can be created where they lie.
    pub in_use: bool,
}

/// The contents of a token account.
#[derive(Clone, Copy, Debug, PartialEq, Eq)]
pub struct TokenAccount {
    /// The token.
    pub mint: Pubkey,
    /// Who disposes of the tokens.
    pub owner: Pubkey,
}

/// A rule on the accounts: what its violation is answered with.
pub open spec fn account_rule(holds: bool, error: AccountError) -> Option<ProgramError> {
    if holds {
        None
    } else {
        Some(ProgramError::Account(error))
    }
}

/// A rule of the escrow: what its violation is answered with.
pub open spec fn rule(holds: bool, error: EscrowError) -> Option<ProgramError> {
    if holds {
        None
    } else {
        Some(ProgramError::Escrow(error))
    }
}

/// Two rules in order: the violation of the first is answered first.
pub open spec fn or(first: Option<ProgramError>, second: Option<ProgramError>) -> Option<
    ProgramError,
> {
    if first is Some {
        first
    } else {
        second
    }
}

/// What is wrong with an account that has to be the token program.
pub open spec fn token_program_fault(program: Pubkey) -> Option<ProgramError> {
    account_rule(program@ == TOKEN_PROGRAM_ID@, AccountError::InvalidProgramId)
}

/// What is wrong with an account that has to be the system program.
pub open spec fn system_program_fault(program: Pubkey) -> Option<ProgramError> {
    account_rule(program@ == SYSTEM_PROGRAM_ID@, AccountError::InvalidProgramId)
}

/// What is wrong with an account that has to stand at a canonical address.
pub open spec fn canonical_fault(key: Pubkey, address: Option<Seq<u8>>) -> Option<ProgramError> {
    or(
        account_rule(address is Some, AccountError::NoProgramAddress),
        account_rule(address == Some(key@), AccountError::ConstraintSeeds),
    )
}

/// What is wrong with an account that is to be created at a canonical address.
pub open spec fn creation_fault(account: NewAccount, address: Option<Seq<u8>>) -> Option<
    ProgramError,
> {
    or(
        canonical_fault(account.key, address),
        account_rule(!account.in_use, AccountError::AccountAlreadyInUse),
    )
}

/// What is wrong with a deal that has to stand at its own address and be
/// writable.
pub open spec fn escrow_fault(escrow: Account<Escrow>, address: Option<Seq<u8>>) -> Option<
    ProgramError,
> {
    or(
        account_rule(address == Some(escrow.key@), AccountError::ConstraintSeeds),
        account_rule(escrow.is_writable, AccountError::ConstraintMut),
    )
}

/// What is wrong with a vault that has to stand at the canonical address of the
/// deal's vault, be writable and belong to the deal.
pub open spec fn vault_fault(
    vault: Account<TokenAccount>,
    address: Option<Seq<u8>>,
    escrow: Pubkey,
) -> Option<ProgramError> {
    let f = canonical_fault(vault.key, address);
    let f = or(f, account_rule(vault.is_writable, AccountError::ConstraintMut));
    or(f, account_rule(vault.data.owner == escrow, AccountError::ConstraintTokenOwner))
}

/// What is wrong with a token account that has to be writable, belong to
/// `owner` and hold `mint`.
pub open spec fn token_fault(
    account: Account<TokenAccount>,
    owner: Pubkey,
    mint: Pubkey,
) -> Option<ProgramError> {
    let f = account_rule(account.is_writable, AccountError::ConstraintMut);
    let f = or(f, account_rule(account.data.owner == owner, AccountError::ConstraintTokenOwner));
    or(f, account_rule(account.data.mint == mint, AccountError::ConstraintTokenMint))
}

/// Whether an account is the token program.
pub fn is_token_program(program: &Pubkey) -> (b: bool)
    ensures
        b == (program@ == TOKEN_PROGRAM_ID@),
{
    broadcast use lemma_pubkey_ext;
    let id: Pubkey = Pubkey { bytes: TOKEN_PROGRAM_ID };
    assert(id@ == TOKEN_PROGRAM_ID@);
    *program == id
}

/// Whether an account is the system program.
pub fn is_system_program(program: &Pubkey) -> (b: bool)
    ensures
        b == (program@ == SYSTEM_PROGRAM_ID@),
{
    broadcast use lemma_pubkey_ext;
    let id: Pubkey = Pubkey { bytes: SYSTEM_PROGRAM_ID };
    assert(id@ == SYSTEM_PROGRAM_ID@);
    *program == id
}

/// Finds what is wrong with an account that is to be created.
pub fn check_creation(account: &NewAccount, address: &Option<Pubkey>) -> (fault: Option<
    ProgramError,
>)
    ensures
        fault == creation_fault(*account, address_bytes(*address)),
{
    if address.is_none() {
        return Some(ProgramError::Account(AccountError::NoProgramAddress));
    }
    if !stands_at(&account.key, address) {
        return Some(ProgramError::Account(AccountError::ConstraintSeeds));
    }
    if account.in_use {
        return Some(ProgramError::Account(AccountError::AccountAlreadyInUse));
    }
    None
}

/// Finds what is wrong with the account of a deal.
pub fn check_escrow(escrow: &Account<Escrow>, address: &Option<Pubkey>) -> (fault: Option<
    ProgramError,
>)
    ensures
        fault == escrow_fault(*escrow, address_bytes(*address)),
{
    if !stands_at(&escrow.key, address) {
        return Some(ProgramError::Account(AccountError::ConstraintSeeds));
    }
    if !escrow.is_writable {
        return Some(ProgramError::Account(AccountError::ConstraintMut));
    }
    None
}

/// Finds what is wrong with the vault of a deal.
pub fn check_vault(
    vault: &Account<TokenAccount>,
    address: &Option<Pubkey>,
    escrow: &Pubkey,
) -> (fault: Option<ProgramError>)
    ensures
        fault == vault_fault(*vault, address_bytes(*address), *escrow),
{
    if address.is_none() {
        return Some(ProgramError::Account(AccountError::NoProgramAddress));
    }
    if !stands_at(&vault.key, address) {
        return Some(ProgramError::Account(AccountError::ConstraintSeeds));
    }
    if !vault.is_writable {
        return Some(ProgramError::Account(AccountError::ConstraintMut));
    }
    if vault.data.owner != *escrow {
        return Some(ProgramError::Account(AccountError::ConstraintTokenOwner));
    }
    None
}

/// Finds what is wrong with a party's token account.
pub fn check_token(account: &Account<TokenAccount>, owner: &Pubkey, mint: &Pubkey) -> (fault:
    Option<ProgramError>)
    ensures
        fault == token_fault(*account, *owner, *mint),
{
    if !account.is_writable {
        return Some(ProgramError::Account(AccountError::ConstraintMut));
    }
    if account.data.owner != *owner {
        return Some(ProgramError::Account(AccountError::ConstraintTokenOwner));
    }
    if account.data.mint != *mint {
        return Some(ProgramError::Account(AccountError::ConstraintTokenMint));
    }
    None
}

/// Whether no address occurs twice.
pub fn all_distinct(keys: &[Pubkey]) -> (b: bool)
    ensures
        b == keys@.no_duplicates(),
{
    let mut i: usize = 0;
    while i < keys.len()
        invariant
            i <= keys.len(),
            forall|a: int, b: int| 0 <= a < i && 0 <= b < a ==> keys@[a] != keys@[b],
        decreases keys.len() - i,
    {
        let mut j: usize = 0;
        while j < i
            invariant
                j <= i < keys.len(),
                forall|b: int| 0 <= b < j ==> keys@[i as int] != keys@[b],
            decreases i - j,
        {
            if keys[i] == keys[j] {
                return false;
            }
            j = j + 1;
        }
        i = i + 1;
    }
    true
}

} // verus!

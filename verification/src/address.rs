//! Addresses that a program derives from seeds and signs for itself.
use vstd::bytes::*;
use vstd::prelude::*;

use crate::accounts::Account;
use crate::constants::{CONFIG_SEED, ESCROW_SEED, VAULT_SEED};
use crate::pubkey::{lemma_pubkey_ext, Pubkey};
use crate::state::{Config, Escrow};

verus! {

/// The address that the given seeds derive under a program, if they derive one.
pub uninterp spec fn program_address(seeds: Seq<Seq<u8>>, program_id: Seq<u8>) -> Option<Seq<u8>>;

/// The address with the greatest bump from `top` down to one that, put behind
/// the seeds, makes them derive an address, and that bump.
pub open spec fn bump_search(seeds: Seq<Seq<u8>>, program_id: Seq<u8>, top: nat) -> Option<
    (Seq<u8>, u8),
>
    decreases top,
{
    if top == 0 {
        None
    } else {
        match program_address(seeds.push(seq![top as u8]), program_id) {
            Some(address) => Some((address, top as u8)),
            None => bump_search(seeds, program_id, (top - 1) as nat),
        }
    }
}

/// The canonical address of the seeds, with its bump.
pub open spec fn canonical(seeds: Seq<Seq<u8>>, program_id: Seq<u8>) -> Option<(Seq<u8>, u8)> {
    bump_search(seeds, program_id, 255)
}

/// The bytes of each seed.
pub open spec fn seed_bytes(seeds: Seq<&[u8]>) -> Seq<Seq<u8>> {
    seeds.map_values(|s: &[u8]| s@)
}

/// The bytes of an address that may be missing.
pub open spec fn address_bytes(address: Option<Pubkey>) -> Option<Seq<u8>> {
    match address {
        Some(key) => Some(key@),
        None => None,
    }
}

/// The bytes of a canonical address that may be missing.
pub open spec fn found_bytes(found: Option<(Pubkey, u8)>) -> Option<(Seq<u8>, u8)> {
    match found {
        Some((key, bump)) => Some((key@, bump)),
        None => None,
    }
}

/// The address without its bump.
pub open spec fn without_bump(found: Option<(Seq<u8>, u8)>) -> Option<Seq<u8>> {
    match found {
        Some((address, _)) => Some(address),
        None => None,
    }
}

/// The bump of a canonical address.
pub open spec fn bump_of(found: Option<(Seq<u8>, u8)>) -> u8
    recommends
        found is Some,
{
    match found {
        Some((_, bump)) => bump,
        None => arbitrary(),
    }
}

/// Whether two lists of seeds derive one address from different bytes.
pub open spec fn collide(
    first: Seq<Seq<u8>>,
    second: Seq<Seq<u8>>,
    program_id: Seq<u8>,
) -> bool {
    &&& program_address(first, program_id) is Some
    &&& program_address(first, program_id) == program_address(second, program_id)
    &&& first.flatten() != second.flatten()
}

/// The seeds of the configuration's address.
pub open spec fn config_seeds() -> Seq<Seq<u8>> {
    seq![CONFIG_SEED@]
}

/// The seeds of a deal's address.
pub open spec fn escrow_seeds(order_id: u64, buyer: Pubkey, seller: Pubkey) -> Seq<Seq<u8>> {
    seq![ESCROW_SEED@, spec_u64_to_le_bytes(order_id), buyer@, seller@]
}

/// The seeds of the address of a deal's vault.
pub open spec fn vault_seeds(escrow: Pubkey) -> Seq<Seq<u8>> {
    seq![VAULT_SEED@, escrow@]
}

impl Escrow {
    /// The seeds, with the stored bump, by which a deal signs for its vault.
    pub open spec fn signer_seeds(self) -> Seq<Seq<u8>> {
        escrow_seeds(self.order_id, self.buyer, self.seller).push(seq![self.bump])
    }
}

/// Calls `create_program_address` of `anchor_lang::prelude::Pubkey`: whether the
/// seeds derive an address under the program, and which, depends on these bytes
/// alone. How the address follows from them is left unsaid.
#[verifier::external_body]
fn create_program_address(seeds: &[&[u8]], program_id: &Pubkey) -> (res: Option<Pubkey>)
    ensures
        address_bytes(res) == program_address(seed_bytes(seeds@), program_id@),
{
    let program = anchor_lang::prelude::Pubkey::new_from_array(program_id.bytes);
    match anchor_lang::prelude::Pubkey::create_program_address(seeds, &program) {
        Ok(key) => Some(Pubkey { bytes: key.to_bytes() }),
        Err(_) => None,
    }
}

/// Calls `try_find_program_address` of `anchor_lang::prelude::Pubkey`: the bumps
/// 255 down to one are put behind the seeds in turn, and the first with which
/// `create_program_address` gives an address is taken, with that address. There
/// is no result where no bump gives one.
#[verifier::external_body]
fn try_find_program_address(seeds: &[&[u8]], program_id: &Pubkey) -> (res: Option<(Pubkey, u8)>)
    ensures
        found_bytes(res) == canonical(seed_bytes(seeds@), program_id@),
{
    let program = anchor_lang::prelude::Pubkey::new_from_array(program_id.bytes);
    match anchor_lang::prelude::Pubkey::try_find_program_address(seeds, &program) {
        Some((key, bump)) => Some((Pubkey { bytes: key.to_bytes() }, bump)),
        None => None,
    }
}

/// The canonical address of the configuration, with its bump.
pub fn find_config_address(program_id: &Pubkey) -> (res: Option<(Pubkey, u8)>)
    ensures
        found_bytes(res) == canonical(config_seeds(), program_id@),
{
    let name: [u8; 6] = CONFIG_SEED;
    let mut seeds: Vec<&[u8]> = Vec::new();
    seeds.push(name.as_slice());
    assert(seed_bytes(seeds@) =~= config_seeds());
    try_find_program_address(seeds.as_slice(), program_id)
}

/// The address of the configuration under a stored bump.
pub fn config_address(program_id: &Pubkey, bump: u8) -> (res: Option<Pubkey>)
    ensures
        address_bytes(res) == program_address(config_seeds().push(seq![bump]), program_id@),
{
    let name: [u8; 6] = CONFIG_SEED;
    let last: [u8; 1] = [bump];
    let mut seeds: Vec<&[u8]> = Vec::new();
    seeds.push(name.as_slice());
    seeds.push(last.as_slice());
    assert(last@ =~= seq![bump]);
    assert(seed_bytes(seeds@) =~= config_seeds().push(seq![bump]));
    create_program_address(seeds.as_slice(), program_id)
}

/// The canonical address of a deal, with its bump.
pub fn find_escrow_address(
    program_id: &Pubkey,
    order_id: u64,
    buyer: &Pubkey,
    seller: &Pubkey,
) -> (res: Option<(Pubkey, u8)>)
    ensures
        found_bytes(res) == canonical(escrow_seeds(order_id, *buyer, *seller), program_id@),
{
    let name: [u8; 6] = ESCROW_SEED;
    let order: Vec<u8> = u64_to_le_bytes(order_id);
    let mut seeds: Vec<&[u8]> = Vec::new();
    seeds.push(name.as_slice());
    seeds.push(order.as_slice());
    seeds.push(buyer.bytes.as_slice());
    seeds.push(seller.bytes.as_slice());
    assert(seed_bytes(seeds@) =~= escrow_seeds(order_id, *buyer, *seller));
    try_find_program_address(seeds.as_slice(), program_id)
}

/// The address of a deal under its stored bump.
pub fn escrow_address(program_id: &Pubkey, escrow: &Escrow) -> (res: Option<Pubkey>)
    ensures
        address_bytes(res) == program_address(escrow.signer_seeds(), program_id@),
{
    let name: [u8; 6] = ESCROW_SEED;
    let order: Vec<u8> = u64_to_le_bytes(escrow.order_id);
    let last: [u8; 1] = [escrow.bump];
    let mut seeds: Vec<&[u8]> = Vec::new();
    seeds.push(name.as_slice());
    seeds.push(order.as_slice());
    seeds.push(escrow.buyer.bytes.as_slice());
    seeds.push(escrow.seller.bytes.as_slice());
    seeds.push(last.as_slice());
    assert(last@ =~= seq![escrow.bump]);
    assert(seed_bytes(seeds@) =~= escrow.signer_seeds());
    create_program_address(seeds.as_slice(), program_id)
}

/// The canonical address of the vault of the deal at an address, with its bump.
pub fn find_vault_address(program_id: &Pubkey, escrow: &Pubkey) -> (res: Option<(Pubkey, u8)>)
    ensures
        found_bytes(res) == canonical(vault_seeds(*escrow), program_id@),
{
    let name: [u8; 5] = VAULT_SEED;
    let mut seeds: Vec<&[u8]> = Vec::new();
    seeds.push(name.as_slice());
    seeds.push(escrow.bytes.as_slice());
    assert(seed_bytes(seeds@) =~= vault_seeds(*escrow));
    try_find_program_address(seeds.as_slice(), program_id)
}

/// A copy of the bytes.
fn copy_bytes(bytes: &[u8]) -> (copy: Vec<u8>)
    ensures
        copy@ == bytes@,
{
    let mut copy: Vec<u8> = Vec::new();
    let mut i: usize = 0;
    while i < bytes.len()
        invariant
            i <= bytes.len(),
            copy@ =~= bytes@.take(i as int),
        decreases bytes.len() - i,
    {
        copy.push(bytes[i]);
        i = i + 1;
    }
    assert(bytes@.take(bytes@.len() as int) =~= bytes@);
    copy
}

/// The bytes of each seed of an owned list.
pub open spec fn owned_bytes(seeds: Seq<Vec<u8>>) -> Seq<Seq<u8>> {
    seeds.map_values(|s: Vec<u8>| s@)
}

/// The seeds by which a deal signs for its vault.
pub fn signer_seeds(escrow: &Escrow) -> (seeds: Vec<Vec<u8>>)
    ensures
        owned_bytes(seeds@) == escrow.signer_seeds(),
{
    let name: [u8; 6] = ESCROW_SEED;
    let last: [u8; 1] = [escrow.bump];
    let mut seeds: Vec<Vec<u8>> = Vec::new();
    seeds.push(copy_bytes(name.as_slice()));
    seeds.push(u64_to_le_bytes(escrow.order_id));
    seeds.push(copy_bytes(escrow.buyer.bytes.as_slice()));
    seeds.push(copy_bytes(escrow.seller.bytes.as_slice()));
    seeds.push(copy_bytes(last.as_slice()));
    assert(last@ =~= seq![escrow.bump]);
    assert(owned_bytes(seeds@) =~= escrow.signer_seeds());
    seeds
}

/// The derived addresses that the accounts of a settlement have to stand at,
/// as bytes.
pub struct AddressSet {
    pub config: Option<Seq<u8>>,
    pub escrow: Option<Seq<u8>>,
    pub vault: Option<Seq<u8>>,
}

/// The derived addresses that the accounts of a settlement have to stand at.
#[derive(Clone, Copy, Debug, PartialEq, Eq)]
pub struct Addresses {
    /// The address of the configuration under its stored bump.
    pub config: Option<Pubkey>,
    /// The address of the deal under its stored bump.
    pub escrow: Option<Pubkey>,
    /// The canonical address of the deal's vault.
    pub vault: Option<Pubkey>,
}

impl View for Addresses {
    type V = AddressSet;

    open spec fn view(&self) -> AddressSet {
        AddressSet {
            config: address_bytes(self.config),
            escrow: address_bytes(self.escrow),
            vault: address_bytes(self.vault),
        }
    }
}

/// The addresses that a program derives for the settlement of a deal.
pub open spec fn settlement_addresses(
    program_id: Pubkey,
    config: Account<Config>,
    escrow: Account<Escrow>,
) -> AddressSet {
    AddressSet {
        config: program_address(config_seeds().push(seq![config.data.bump]), program_id@),
        escrow: program_address(escrow.data.signer_seeds(), program_id@),
        vault: without_bump(canonical(vault_seeds(escrow.key), program_id@)),
    }
}

/// Derives the addresses for the settlement of a deal.
pub fn derive_settlement_addresses(
    program_id: &Pubkey,
    config: &Account<Config>,
    escrow: &Account<Escrow>,
) -> (addresses: Addresses)
    ensures
        addresses@ == settlement_addresses(*program_id, *config, *escrow),
{
    Addresses {
        config: config_address(program_id, config.data.bump),
        escrow: escrow_address(program_id, &escrow.data),
        vault: drop_bump(find_vault_address(program_id, &escrow.key)),
    }
}

/// An address without its bump.
pub fn drop_bump(found: Option<(Pubkey, u8)>) -> (address: Option<Pubkey>)
    ensures
        address_bytes(address) == without_bump(found_bytes(found)),
{
    match found {
        Some((key, _)) => Some(key),
        None => None,
    }
}

/// Whether an account stands at a derived address.
pub fn stands_at(key: &Pubkey, address: &Option<Pubkey>) -> (b: bool)
    ensures
        b == (address_bytes(*address) == Some(key@)),
{
    broadcast use lemma_pubkey_ext;
    match address {
        Some(derived) => *key == *derived,
        None => false,
    }
}

} // verus!

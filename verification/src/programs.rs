//! The well-known program and sysvar addresses, program-derived addresses,
//! and the system program's create-account instruction, all read from
//! `solana_program` and `spl_token`.
use crate::address::{AccountMeta, Address, metas, writable};
use solana_program::pubkey::Pubkey;
use vstd::bytes::spec_u64_to_le_bytes;
use vstd::prelude::*;

verus! {

/// The bytes of the SPL token program's id, `TokenkegQfeZyiNwAJbNbGKPFXCWuBvf9Ss623VQ5DA`.
pub open spec fn token_program_key() -> Seq<u8> {
    seq![
        6u8, 221, 246, 225, 215, 101, 161, 147, 217, 203, 225, 70, 206, 235, 121, 172,
        28, 180, 133, 237, 95, 91, 55, 145, 58, 140, 245, 133, 126, 255, 0, 169,
    ]
}

/// The bytes of the clock sysvar's id, `SysvarC1ock11111111111111111111111111111111`.
pub open spec fn clock_sysvar_key() -> Seq<u8> {
    seq![
        6u8, 167, 213, 23, 24, 199, 116, 201, 40, 86, 99, 152, 105, 29, 94, 182,
        139, 94, 184, 163, 155, 75, 109, 92, 115, 85, 91, 33, 0, 0, 0, 0,
    ]
}

/// The bytes of the rent sysvar's id, `SysvarRent111111111111111111111111111111111`.
pub open spec fn rent_sysvar_key() -> Seq<u8> {
    seq![
        6u8, 167, 213, 23, 25, 44, 92, 81, 33, 140, 201, 76, 61, 74, 241, 127,
        88, 218, 238, 8, 155, 161, 253, 68, 227, 219, 217, 138, 0, 0, 0, 0,
    ]
}

/// The bytes of the system program's id, `11111111111111111111111111111111`.
pub open spec fn system_program_key() -> Seq<u8> {
    Seq::new(32, |i: int| 0u8)
}

/// Reads `spl_token::ID`, which the crate declares with
/// `declare_id!("TokenkegQfeZyiNwAJbNbGKPFXCWuBvf9Ss623VQ5DA")`; the contract
/// gives that id's base58-decoded bytes.
#[verifier::external_body]
pub(crate) fn token_program_id() -> (r: Address)
    ensures
        r@ == token_program_key(),
{
    Address { bytes: spl_token::ID.to_bytes() }
}

/// Reads `solana_program::sysvar::clock::ID`, declared in that crate as
/// `SysvarC1ock11111111111111111111111111111111`; the contract gives its bytes.
#[verifier::external_body]
pub(crate) fn clock_sysvar_id() -> (r: Address)
    ensures
        r@ == clock_sysvar_key(),
{
    Address { bytes: solana_program::sysvar::clock::ID.to_bytes() }
}

/// Reads `solana_program::sysvar::rent::ID`, declared in that crate as
/// `SysvarRent111111111111111111111111111111111`; the contract gives its bytes.
#[verifier::external_body]
pub(crate) fn rent_sysvar_id() -> (r: Address)
    ensures
        r@ == rent_sysvar_key(),
{
    Address { bytes: solana_program::sysvar::rent::ID.to_bytes() }
}

/// The address that `Pubkey::create_program_address` derives from the seeds and
/// the program id, or `None` where it fails. The derivation (SHA-256 of the seeds,
/// the program id and a marker, then a curve check) is not restated here.
pub uninterp spec fn program_address(seeds: Seq<Seq<u8>>, program_id: Seq<u8>) -> Option<Seq<u8>>;

/// The most seeds that a program address takes.
pub open spec fn max_seeds() -> nat {
    16
}

/// The most bytes that one seed of a program address holds.
pub open spec fn max_seed_len() -> nat {
    32
}

/// The seeds of a program address, as byte sequences.
pub open spec fn seeds_view(seeds: Seq<Vec<u8>>) -> Seq<Seq<u8>> {
    seeds.map_values(|s: Vec<u8>| s@)
}

/// Whether the seeds are within the limits that `create_program_address` checks
/// before it hashes them.
pub open spec fn seeds_in_limits(seeds: Seq<Seq<u8>>) -> bool {
    &&& seeds.len() <= max_seeds()
    &&& forall|i: int| 0 <= i < seeds.len() ==> #[trigger] seeds[i].len() <= max_seed_len()
}

/// Calls `solana_program::pubkey::Pubkey::create_program_address`. Its result is
/// named by `program_address`; its source returns `MaxSeedLengthExceeded` when
/// there are more than 16 seeds or a seed is longer than 32 bytes, which the
/// last clause states. Which seeds hash onto the curve is left unsaid.
#[verifier::external_body]
pub(crate) fn create_program_address(seeds: &Vec<Vec<u8>>, program_id: &Address) -> (r: Option<Address>)
    ensures
        r matches Some(a) ==> program_address(seeds_view(seeds@), program_id@) == Some(a@),
        r is None ==> program_address(seeds_view(seeds@), program_id@) is None,
        !seeds_in_limits(seeds_view(seeds@)) ==> r is None,
{
    let slices: Vec<&[u8]> = seeds.iter().map(|s| s.as_slice()).collect();
    Pubkey::create_program_address(&slices, &Pubkey::new_from_array(program_id.bytes))
        .ok()
        .map(|k| Address { bytes: k.to_bytes() })
}

/// An instruction for one program: its id, the accounts it uses, and its data.
#[derive(Clone, Debug)]
pub struct Instruction {
    pub program_id: Address,
    pub accounts: Vec<AccountMeta>,
    pub data: Vec<u8>,
}

/// The data of the system program's `CreateAccount` instruction, as bincode
/// encodes it: the variant index 0 as a little-endian `u32`, then the lamports
/// and the space as little-endian `u64`s, then the owner's 32 bytes.
pub open spec fn create_account_data(lamports: u64, space: u64, owner: Seq<u8>) -> Seq<u8> {
    seq![0u8, 0u8, 0u8, 0u8] + spec_u64_to_le_bytes(lamports) + spec_u64_to_le_bytes(space) + owner
}

/// Calls `solana_program::system_instruction::create_account`. Its source builds
/// an instruction for the system program whose accounts are the funding account
/// and the new account, both writable signers, and whose data is the bincode
/// encoding of `SystemInstruction::CreateAccount` (variant 0) with the lamports,
/// the space and the owner, spelled out by `create_account_data`.
#[verifier::external_body]
pub(crate) fn system_create_account(
    from: &Address,
    to: &Address,
    lamports: u64,
    space: u64,
    owner: &Address,
) -> (r: Instruction)
    ensures
        r.program_id@ == system_program_key(),
        metas(r.accounts@) == seq![writable(from@, true), writable(to@, true)],
        r.data@ == create_account_data(lamports, space, owner@),
{
    let ix = solana_program::system_instruction::create_account(
        &Pubkey::new_from_array(from.bytes),
        &Pubkey::new_from_array(to.bytes),
        lamports,
        space,
        &Pubkey::new_from_array(owner.bytes),
    );
    let accounts = ix.accounts.iter().map(|m| AccountMeta {
        pubkey: Address { bytes: m.pubkey.to_bytes() },
        is_signer: m.is_signer,
        is_writable: m.is_writable,
    }).collect();
    Instruction { program_id: Address { bytes: ix.program_id.to_bytes() }, accounts, data: ix.data }
}

} // verus!

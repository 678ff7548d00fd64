//! Accounting core of a two-asset liquidity pool: share ownership, vesting of
//! newly minted shares, lazy per-share fee accrual and the protocol-fee split.
//! Around it, the requests of the pool program and the addresses it derives.

use vstd::prelude::*;

pub mod accounts;
pub mod amm;
pub mod errors;
pub mod events;
pub mod fixed;
pub mod instructions;
pub mod laws;
pub mod lp;
pub mod spl_token;

pub use crate::amm::SwapResult;

verus! {

/// A slot number, or a number of slots.
pub type SlotWindow = u64;

/// The identity of an account: 32 bytes.
pub type Pubkey = [u8; 32];

/// The identity of the pool program.
pub const ID: Pubkey = [
    13, 6, 160, 146, 10, 228, 52, 37, 187, 203, 193, 227, 142, 69, 91, 255,
    226, 135, 246, 50, 221, 239, 177, 193, 236, 190, 203, 243, 95, 113, 243, 115,
];

/// The address that a program derives from seeds, with the nonce that was
/// found for it; none where the seeds admit no address.
pub uninterp spec fn program_address(seeds: Seq<Seq<u8>>, program_id: Seq<u8>) -> Option<
    (Seq<u8>, u8),
>;

/// The seeds of a pool's vault for one token: the word "vault", the pool and
/// the token's mint.
pub open spec fn vault_seeds(pool: Seq<u8>, mint: Seq<u8>) -> Seq<Seq<u8>> {
    seq![seq![118u8, 97u8, 117u8, 108u8, 116u8], pool, mint]
}

/// The seeds of an owner's position in a pool: the word "lp_position", the
/// pool and the owner.
pub open spec fn lp_position_seeds(pool: Seq<u8>, trader: Seq<u8>) -> Seq<Seq<u8>> {
    seq![
        seq![108u8, 112u8, 95u8, 112u8, 111u8, 115u8, 105u8, 116u8, 105u8, 111u8, 110u8],
        pool,
        trader,
    ]
}

/// The seeds of the log authority: the word "log".
pub open spec fn log_seeds() -> Seq<Seq<u8>> {
    seq![seq![108u8, 111u8, 103u8]]
}

/// Whether `found` is what the program `program_id` derives from `seeds`.
pub open spec fn is_program_address(
    found: Option<(Pubkey, u8)>,
    seeds: Seq<Seq<u8>>,
    program_id: Seq<u8>,
) -> bool {
    match found {
        Some((key, bump)) => program_address(seeds, program_id) == Some((key@, bump)),
        None => program_address(seeds, program_id) is None,
    }
}

/// Calls `solana_program::pubkey::Pubkey::try_find_program_address`, which
/// hashes the seeds, one more byte and the program's identity, for that byte
/// from 255 downwards, and returns the first hash that is no point of the
/// curve, with the byte. The contract claims only that the result depends on
/// the seeds and the program's identity alone.
#[verifier::external_body]
fn find_program_address(seeds: &Vec<Vec<u8>>, program_id: &Pubkey) -> (r: Option<(Pubkey, u8)>)
    ensures
        match r {
            Some((key, bump)) => program_address(seeds.deep_view(), program_id@) == Some(
                (key@, bump),
            ),
            None => program_address(seeds.deep_view(), program_id@) is None,
        },
{
    let parts: Vec<&[u8]> = seeds.iter().map(|seed| seed.as_slice()).collect();
    let program = solana_program::pubkey::Pubkey::new_from_array(*program_id);
    match solana_program::pubkey::Pubkey::try_find_program_address(&parts, &program) {
        Some((key, bump)) => Some((key.to_bytes(), bump)),
        None => None,
    }
}

/// The bytes of an identity as a seed.
fn key_seed(key: &Pubkey) -> (r: Vec<u8>)
    ensures
        r@ == key@,
{
    let mut seed: Vec<u8> = Vec::new();
    crate::instructions::push_key(&mut seed, key);
    assert(seed@ =~= key@);
    seed
}

/// The address of the vault in which the pool `pool` keeps the token `mint`.
pub fn get_vault_address(plasma_program_id: &Pubkey, pool: &Pubkey, mint: &Pubkey) -> (r: Option<
    (Pubkey, u8),
>)
    ensures
        is_program_address(r, vault_seeds(pool@, mint@), plasma_program_id@),
{
    let mut word: Vec<u8> = Vec::new();
    word.push(118);
    word.push(97);
    word.push(117);
    word.push(108);
    word.push(116);
    let mut seeds: Vec<Vec<u8>> = Vec::new();
    seeds.push(word);
    seeds.push(key_seed(pool));
    seeds.push(key_seed(mint));
    assert(seeds.deep_view() =~~= vault_seeds(pool@, mint@));
    find_program_address(&seeds, plasma_program_id)
}

/// The address of the position that `trader` has in the pool `pool`.
pub fn get_lp_position_address(plasma_program_id: &Pubkey, pool: &Pubkey, trader: &Pubkey) -> (r:
    Option<(Pubkey, u8)>)
    ensures
        is_program_address(r, lp_position_seeds(pool@, trader@), plasma_program_id@),
{
    let mut word: Vec<u8> = Vec::new();
    word.push(108);
    word.push(112);
    word.push(95);
    word.push(112);
    word.push(111);
    word.push(115);
    word.push(105);
    word.push(116);
    word.push(105);
    word.push(111);
    word.push(110);
    let mut seeds: Vec<Vec<u8>> = Vec::new();
    seeds.push(word);
    seeds.push(key_seed(pool));
    seeds.push(key_seed(trader));
    assert(seeds.deep_view() =~~= lp_position_seeds(pool@, trader@));
    find_program_address(&seeds, plasma_program_id)
}

/// The address under which the program writes its log.
pub fn get_log_authority(plasma_program_id: &Pubkey) -> (r: Option<Pubkey>)
    ensures
        match r {
            Some(key) => program_address(log_seeds(), plasma_program_id@) is Some
                && program_address(log_seeds(), plasma_program_id@)->Some_0.0 == key@,
            None => program_address(log_seeds(), plasma_program_id@) is None,
        },
{
    let mut word: Vec<u8> = Vec::new();
    word.push(108);
    word.push(111);
    word.push(103);
    let mut seeds: Vec<Vec<u8>> = Vec::new();
    seeds.push(word);
    assert(seeds.deep_view() =~~= log_seeds());
    match find_program_address(&seeds, plasma_program_id) {
        Some((key, _)) => Some(key),
        None => None,
    }
}

} // verus!

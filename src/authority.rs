use crate::address::Address;
use anchor_lang::prelude::Pubkey;
use anchor_lang::prelude::Rent;
use anchor_lang::solana_program::program_pack::Pack;
use anchor_lang::solana_program::pubkey::PubkeyError;
use anchor_spl::token::spl_token::state::Account as PackedTokenAccount;
use vstd::prelude::*;

verus! {

/// The program address, with its bump, that a search from the highest bump
/// down finds for `seeds` under `program`.
pub uninterp spec fn found_program_address(seeds: Seq<Seq<u8>>, program: Seq<u8>) -> Option<(Seq<u8>, u8)>;

/// The program address that `seeds`, bump included, give under `program`.
pub uninterp spec fn created_program_address(seeds: Seq<Seq<u8>>, program: Seq<u8>) -> Option<Seq<u8>>;

pub open spec fn seeds_view(seeds: Seq<Vec<u8>>) -> Seq<Seq<u8>> {
    seeds.map_values(|s: Vec<u8>| s@)
}

/// Relies on `Pubkey::try_find_program_address`: it returns the first
/// address that `Pubkey::create_program_address` accepts for the seeds with
/// one more seed, the bump, appended, and that bump.
#[verifier::external_body]
pub(crate) fn find_program_address(seeds: &Vec<Vec<u8>>, program: &Address) -> (r: Option<(Address, u8)>)
    ensures
        found_program_address(seeds_view(seeds@), program@) == match r {
            Some((a, b)) => Some((a@, b)),
            None => None,
        },
        r matches Some((a, b)) ==> created_program_address(
            seeds_view(seeds@).push(seq![b]),
            program@,
        ) == Some(a@),
{
    let slices: Vec<&[u8]> = seeds.iter().map(|s| s.as_slice()).collect();
    Pubkey::try_find_program_address(&slices, &Pubkey::new_from_array(program.bytes)).map(
        |(a, b)| (Address { bytes: a.to_bytes() }, b),
    )
}

/// The error of a program address derivation.
#[verifier::external_type_specification]
#[verifier::external_body]
pub struct ExPubkeyError(PubkeyError);

/// Relies on `Pubkey::create_program_address`: the address that the seeds
/// give under the program, or an error where they give a point on the curve
/// or break its length limits.
#[verifier::external_body]
pub(crate) fn create_program_address(seeds: &Vec<Vec<u8>>, program: &Address) -> (r: Result<Address, PubkeyError>)
    ensures
        created_program_address(seeds_view(seeds@), program@) == match r {
            Ok(a) => Some(a@),
            Err(_) => None,
        },
{
    let slices: Vec<&[u8]> = seeds.iter().map(|s| s.as_slice()).collect();
    Pubkey::create_program_address(&slices, &Pubkey::new_from_array(program.bytes)).map(
        |a| Address { bytes: a.to_bytes() },
    )
}

/// Relies on `Rent::minimum_balance` under `Rent::default()`: 3480 lamports
/// per byte-year, 128 bytes of overhead, two years to be exempt. Below the
/// largest account size every step is exact.
#[verifier::external_body]
pub(crate) fn rent_exempt_minimum(data_len: usize) -> (r: u64)
    requires
        data_len <= 10_485_760,
    ensures
        r == 6960 * (128 + data_len),
{
    Rent::default().minimum_balance(data_len)
}

/// Relies on `spl_token::state::Account::LEN`: the packed size of a token
/// account.
#[verifier::external_body]
pub(crate) fn token_account_len() -> (r: usize)
    ensures
        r == 165,
{
    PackedTokenAccount::LEN
}

} // verus!

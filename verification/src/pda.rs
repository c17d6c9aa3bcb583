use vstd::prelude::*;
use vstd::slice::slice_to_vec;
use crate::constants::CONFIG_SEED;
use crate::pubkey::Pubkey;

verus! {

/// The error of `Pubkey::create_program_address` of `anchor_lang`. It is
/// carried, never read: every error counts as no address.
#[verifier::external_type_specification]
#[verifier::external_body]
pub struct ExPubkeyError(anchor_lang::solana_program::pubkey::PubkeyError);

/// The address that `Pubkey::create_program_address` of `anchor_lang` derives
/// for a program from a list of seeds, or `None` where it refuses the seeds.
pub uninterp spec fn program_address(seeds: Seq<Seq<u8>>, program_id: Seq<u8>) -> Option<Seq<u8>>;

/// Calls `Pubkey::create_program_address` of `anchor_lang`.
///
/// Trusted: the call depends on its arguments alone, so what it returns is
/// `program_address` of them, `Ok` standing for `Some` and any error for
/// `None`. Nothing is claimed about which addresses come out.
#[verifier::external_body]
fn create_program_address(seeds: &Vec<Vec<u8>>, program_id: &Pubkey) -> (res: Result<
    Pubkey,
    anchor_lang::solana_program::pubkey::PubkeyError,
>)
    ensures
        match res {
            Ok(address) => program_address(seeds.deep_view(), program_id@) == Some(address@),
            Err(_) => program_address(seeds.deep_view(), program_id@) is None,
        },
{
    let slices: Vec<&[u8]> = seeds.iter().map(|seed| seed.as_slice()).collect();
    let program = anchor_lang::prelude::Pubkey::new_from_array(program_id.bytes);
    match anchor_lang::prelude::Pubkey::create_program_address(&slices, &program) {
        Ok(address) => Ok(Pubkey { bytes: address.to_bytes() }),
        Err(e) => Err(e),
    }
}

/// The address and bump seed that `Pubkey::try_find_program_address` of
/// `anchor_lang` finds for a program from a list of seeds, or `None` where it
/// finds none.
pub uninterp spec fn found_program_address(seeds: Seq<Seq<u8>>, program_id: Seq<u8>) -> Option<
    (Seq<u8>, u8),
>;

/// Calls `Pubkey::try_find_program_address` of `anchor_lang`.
///
/// Trusted: the call depends on its arguments alone, so what it returns is
/// `found_program_address` of them. Nothing is claimed about which address
/// or bump is found.
#[verifier::external_body]
fn try_find_program_address(seeds: &Vec<Vec<u8>>, program_id: &Pubkey) -> (res: Option<
    (Pubkey, u8),
>)
    ensures
        found_view(res) == found_program_address(seeds.deep_view(), program_id@),
{
    let slices: Vec<&[u8]> = seeds.iter().map(|seed| seed.as_slice()).collect();
    let program = anchor_lang::prelude::Pubkey::new_from_array(program_id.bytes);
    match anchor_lang::prelude::Pubkey::try_find_program_address(&slices, &program) {
        Some((address, bump)) => Some((Pubkey { bytes: address.to_bytes() }, bump)),
        None => None,
    }
}

/// The seeds of a configuration record but for the bump: the namespace tag,
/// then the admin.
pub open spec fn config_seeds(admin: Seq<u8>) -> Seq<Seq<u8>> {
    seq![CONFIG_SEED@, admin]
}

/// The address of the configuration record of `admin` under `bump`, for the
/// program `program_id`; `None` where these seeds derive no address.
pub open spec fn config_address(admin: Seq<u8>, bump: u8, program_id: Seq<u8>) -> Option<Seq<u8>> {
    program_address(config_seeds(admin).push(seq![bump]), program_id)
}

/// The address of the configuration record of `admin` and the bump that
/// derives it, as found for the program `program_id`; `None` where none is
/// found.
pub open spec fn canonical_config_address(admin: Seq<u8>, program_id: Seq<u8>) -> Option<
    (Seq<u8>, u8),
> {
    found_program_address(config_seeds(admin), program_id)
}

/// The bytes of an address that may be missing.
pub open spec fn address_view(address: Option<Pubkey>) -> Option<Seq<u8>> {
    match address {
        Some(key) => Some(key@),
        None => None,
    }
}

/// The bytes of an address that may be missing, with its bump.
pub open spec fn found_view(found: Option<(Pubkey, u8)>) -> Option<(Seq<u8>, u8)> {
    match found {
        Some((key, bump)) => Some((key@, bump)),
        None => None,
    }
}

fn config_seed_list(admin: &Pubkey) -> (seeds: Vec<Vec<u8>>)
    ensures
        seeds.deep_view() == config_seeds(admin@),
{
    let mut seeds: Vec<Vec<u8>> = Vec::new();
    seeds.push(slice_to_vec(CONFIG_SEED.as_slice()));
    seeds.push(slice_to_vec(admin.bytes.as_slice()));
    assert(seeds.deep_view() =~~= config_seeds(admin@));
    seeds
}

/// Derives the address of the configuration record of `admin` under `bump`.
pub fn derive_config_address(admin: &Pubkey, bump: u8, program_id: &Pubkey) -> (res: Option<Pubkey>)
    ensures
        address_view(res) == config_address(admin@, bump, program_id@),
{
    let mut seeds = config_seed_list(admin);
    let mut last: Vec<u8> = Vec::new();
    last.push(bump);
    seeds.push(last);
    assert(seeds.deep_view() =~~= config_seeds(admin@).push(seq![bump]));
    match create_program_address(&seeds, program_id) {
        Ok(address) => Some(address),
        Err(_) => None,
    }
}

/// Finds the address of the configuration record of `admin`, and the bump
/// that derives it.
pub fn find_config_address(admin: &Pubkey, program_id: &Pubkey) -> (res: Option<(Pubkey, u8)>)
    ensures
        found_view(res) == canonical_config_address(admin@, program_id@),
{
    let seeds = config_seed_list(admin);
    try_find_program_address(&seeds, program_id)
}

} // verus!

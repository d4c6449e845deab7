//! The addresses that the ledger derives for the program's records, and the
//! seeds from which it derives them.

use vstd::prelude::*;
use crate::address::Address;
use crate::custody::Authority;
use crate::constants::{
    config_seed, config_tag, rewards_seed, rewards_tag, stake_seed, stake_tag, user_seed,
    user_tag, vault_seed, vault_tag,
};
use crate::instructions::initialize_config::InitializeConfigBumps;
use crate::instructions::initialize_user_accounts::InitializeBumps;
use crate::instructions::stake::StakeBumps;

verus! {

/// The address that is derived for the program `program_id` from `seeds`, with
/// the bump that completes the seeds; `None` where none can be derived.
pub uninterp spec fn program_address(seeds: Seq<Seq<u8>>, program_id: Seq<u8>) -> Option<
    (Seq<u8>, u8),
>;

/// The seeds as sequences of bytes.
pub open spec fn seeds_view(seeds: Seq<Vec<u8>>) -> Seq<Seq<u8>> {
    Seq::new(seeds.len(), |i: int| seeds[i]@)
}

/// Calls `Pubkey::try_find_program_address`, which `anchor_lang` hands on in
/// its prelude, with the seeds and the program's identity. The contract is
/// believed, not proved. It claims that the function computes its result from
/// the bytes of its arguments alone, so that the same seeds and program give
/// the same address and bump wherever it runs: that result is what
/// `program_address` names. Nothing is claimed of which address it is.
#[verifier::external_body]
fn try_find_program_address(seeds: &Vec<Vec<u8>>, program_id: &Address) -> (found: Option<
    (Address, u8),
>)
    ensures
        match found {
            Some((address, bump)) => program_address(seeds_view(seeds@), program_id@) == Some(
                (address@, bump),
            ),
            None => program_address(seeds_view(seeds@), program_id@) is None,
        },
{
    let mut parts: Vec<&[u8]> = Vec::new();
    for seed in seeds.iter() {
        parts.push(seed.as_slice());
    }
    let id = anchor_lang::prelude::Pubkey::new_from_array(program_id.bytes);
    match anchor_lang::prelude::Pubkey::try_find_program_address(&parts, &id) {
        Some((key, bump)) => Some((Address { bytes: key.to_bytes() }, bump)),
        None => None,
    }
}

/// The seeds of the config record: its tag alone.
pub open spec fn config_seeds() -> Seq<Seq<u8>> {
    seq![config_seed()]
}

/// The seeds of the reward mint: its tag and the config record's address.
pub open spec fn rewards_seeds(config: Seq<u8>) -> Seq<Seq<u8>> {
    seq![rewards_seed(), config]
}

/// The seeds of a participant's account: its tag and the participant.
pub open spec fn user_seeds(user: Seq<u8>) -> Seq<Seq<u8>> {
    seq![user_seed(), user]
}

/// The seeds of an asset's custody record: its tag, the asset, and the config
/// record's address.
pub open spec fn stake_seeds(mint: Seq<u8>, config: Seq<u8>) -> Seq<Seq<u8>> {
    seq![stake_seed(), mint, config]
}

/// The seeds of an asset's holding account: its tag and the asset.
pub open spec fn vault_seeds(mint: Seq<u8>) -> Seq<Seq<u8>> {
    seq![vault_seed(), mint]
}

/// The seeds with which the config record's derived address signs: its tag and
/// its bump.
pub open spec fn config_signer_seeds(bump: u8) -> Seq<Seq<u8>> {
    seq![config_seed(), seq![bump]]
}

/// The bumps that the ledger derives for the config record and, from the config
/// record's address, for the reward mint.
pub open spec fn config_bumps(program_id: Seq<u8>) -> Option<InitializeConfigBumps> {
    match program_address(config_seeds(), program_id) {
        Some((config, bump)) => match program_address(rewards_seeds(config), program_id) {
            Some((_, rewards_bump)) => Some(
                InitializeConfigBumps { config: bump, rewards_mint: rewards_bump },
            ),
            None => None,
        },
        None => None,
    }
}

/// The bump that the ledger derives for the account of `user`.
pub open spec fn user_bumps(program_id: Seq<u8>, user: Seq<u8>) -> Option<InitializeBumps> {
    match program_address(user_seeds(user), program_id) {
        Some((_, bump)) => Some(InitializeBumps { user_account: bump }),
        None => None,
    }
}

/// The bump that the ledger derives for the custody record of `mint`, under the
/// config record's address.
pub open spec fn stake_bumps(program_id: Seq<u8>, mint: Seq<u8>) -> Option<StakeBumps> {
    match program_address(config_seeds(), program_id) {
        Some((config, _)) => match program_address(stake_seeds(mint, config), program_id) {
            Some((_, bump)) => Some(StakeBumps { stake_account: bump }),
            None => None,
        },
        None => None,
    }
}

/// The seeds that sign for `authority`: none for the participant, who signs
/// the request, and those of the config record's derived address for the
/// program.
pub open spec fn signer_seeds_of(authority: Authority) -> Seq<Seq<u8>> {
    match authority {
        Authority::Owner => Seq::empty(),
        Authority::Config { bump } => config_signer_seeds(bump),
    }
}

/// Builds the seeds that sign for `authority`.
pub fn signer_seeds(authority: &Authority) -> (seeds: Vec<Vec<u8>>)
    ensures
        seeds_view(seeds@) == signer_seeds_of(*authority),
{
    match authority {
        Authority::Owner => {
            let seeds: Vec<Vec<u8>> = Vec::new();
            assert(seeds_view(seeds@) =~= signer_seeds_of(*authority));
            seeds
        },
        Authority::Config { bump } => {
            let last: Vec<u8> = vec![*bump];
            assert(last@ =~= seq![*bump]);
            let seeds: Vec<Vec<u8>> = vec![config_tag(), last];
            assert(seeds_view(seeds@) =~= signer_seeds_of(*authority));
            seeds
        },
    }
}

/// Derives the address of the holding account of `mint`.
pub fn find_vault(program_id: &Address, mint: &Address) -> (vault: Option<Address>)
    ensures
        match vault {
            Some(address) => program_address(vault_seeds(mint@), program_id@) matches Some(
                (found, _),
            ) && found == address@,
            None => program_address(vault_seeds(mint@), program_id@) is None,
        },
{
    let seeds: Vec<Vec<u8>> = vec![vault_tag(), mint.to_seed()];
    assert(seeds_view(seeds@) =~= vault_seeds(mint@));
    match try_find_program_address(&seeds, program_id) {
        Some((address, _)) => Some(address),
        None => None,
    }
}

/// Derives the bumps of the config record and the reward mint.
pub fn find_config_bumps(program_id: &Address) -> (bumps: Option<InitializeConfigBumps>)
    ensures
        bumps == config_bumps(program_id@),
{
    let seeds: Vec<Vec<u8>> = vec![config_tag()];
    assert(seeds_view(seeds@) =~= config_seeds());
    match try_find_program_address(&seeds, program_id) {
        Some((config, bump)) => {
            let seeds: Vec<Vec<u8>> = vec![rewards_tag(), config.to_seed()];
            assert(seeds_view(seeds@) =~= rewards_seeds(config@));
            match try_find_program_address(&seeds, program_id) {
                Some((_, rewards_bump)) => Some(
                    InitializeConfigBumps { config: bump, rewards_mint: rewards_bump },
                ),
                None => None,
            }
        },
        None => None,
    }
}

/// Derives the bump of the account of `user`.
pub fn find_user_bumps(program_id: &Address, user: &Address) -> (bumps: Option<InitializeBumps>)
    ensures
        bumps == user_bumps(program_id@, user@),
{
    let seeds: Vec<Vec<u8>> = vec![user_tag(), user.to_seed()];
    assert(seeds_view(seeds@) =~= user_seeds(user@));
    match try_find_program_address(&seeds, program_id) {
        Some((_, bump)) => Some(InitializeBumps { user_account: bump }),
        None => None,
    }
}

/// Derives the bump of the custody record of `mint`.
pub fn find_stake_bumps(program_id: &Address, mint: &Address) -> (bumps: Option<StakeBumps>)
    ensures
        bumps == stake_bumps(program_id@, mint@),
{
    let seeds: Vec<Vec<u8>> = vec![config_tag()];
    assert(seeds_view(seeds@) =~= config_seeds());
    match try_find_program_address(&seeds, program_id) {
        Some((config, _)) => {
            let seeds: Vec<Vec<u8>> = vec![stake_tag(), mint.to_seed(), config.to_seed()];
            assert(seeds_view(seeds@) =~= stake_seeds(mint@, config@));
            match try_find_program_address(&seeds, program_id) {
                Some((_, bump)) => Some(StakeBumps { stake_account: bump }),
                None => None,
            }
        },
        None => None,
    }
}

} // verus!

//! Custody and accounting rules for staking unique assets: an owner places an
//! asset under program control, the holding period earns reward points, and the
//! points are later redeemed for a fungible reward unit.
//!
//! Each operation works on the records that one request brings with it and
//! either refuses the request, leaving every record as it was, or changes the
//! records and returns the order that the token service has to carry out in the
//! same transaction.

use vstd::prelude::*;
use crate::address::Address;
use crate::custody::{MintTo, RewardMint, Transfer};
use crate::error::ErrorCode;
use crate::instructions::claim::Claim;
use crate::instructions::initialize_config::{InitializeConfig, InitializeConfigBumps};
use crate::instructions::initialize_user_accounts::{Initialize, InitializeBumps};
use crate::instructions::stake::{Stake, StakeBumps};
use crate::instructions::unstake::{Release, Unstake};
use crate::seeds::{
    config_bumps, find_config_bumps, find_stake_bumps, find_user_bumps, stake_bumps, user_bumps,
};

pub mod address;
pub mod constants;
pub mod custody;
pub mod error;
pub mod instructions;
pub mod ledger;
pub mod seeds;
pub mod state;

verus! {

/// The records and the answer after a request to set the program up, where
/// `bumps` is what the ledger derived for the config record and the reward
/// mint. Without derived addresses there is no place for the records, and the
/// request is refused as not found.
pub open spec fn initialize_config_outcome(
    accounts: InitializeConfig,
    bumps: Option<InitializeConfigBumps>,
    points_per_stake: u8,
    max_stake: u8,
    freeze_period: u32,
) -> (InitializeConfig, Result<RewardMint, ErrorCode>) {
    match bumps {
        None => (accounts, Err(ErrorCode::NotFound)),
        Some(b) => match accounts.refusal() {
            Some(e) => (accounts, Err(e)),
            None => (
                accounts.configured(
                    InitializeConfig::record(points_per_stake, max_stake, freeze_period, b),
                ),
                Ok(InitializeConfig::rewards(b)),
            ),
        },
    }
}

/// The records and the answer after a request to open a participant's account,
/// where `bumps` is what the ledger derived for the account.
pub open spec fn initialize_user_outcome(accounts: Initialize, bumps: Option<InitializeBumps>) -> (
    Initialize,
    Result<(), ErrorCode>,
) {
    match bumps {
        None => (accounts, Err(ErrorCode::NotFound)),
        Some(b) => match accounts.refusal() {
            Some(e) => (accounts, Err(e)),
            None => (accounts.opened(b), Ok(())),
        },
    }
}

/// The records and the answer after a request to stake at time `now`, where
/// `bumps` is what the ledger derived for the custody record.
pub open spec fn stake_outcome(accounts: Stake, bumps: Option<StakeBumps>, now: i64) -> (
    Stake,
    Result<Transfer, ErrorCode>,
) {
    match bumps {
        None => (accounts, Err(ErrorCode::NotFound)),
        Some(b) => match accounts.refusal() {
            Some(e) => (accounts, Err(e)),
            None => (accounts.staked(b, now), Ok(accounts.deposit())),
        },
    }
}

/// The records and the answer after a request to reclaim an asset at time
/// `now`.
pub open spec fn unstake_outcome(accounts: Unstake, now: i64) -> (
    Unstake,
    Result<Release, ErrorCode>,
) {
    match accounts.refusal(now) {
        Some(e) => (accounts, Err(e)),
        None => (accounts.unstaked(), Ok(accounts.release())),
    }
}

/// The records and the answer after a request to redeem points.
pub open spec fn claim_outcome(accounts: Claim) -> (Claim, Result<MintTo, ErrorCode>) {
    match accounts.refusal() {
        Some(e) => (accounts, Err(e)),
        None => (accounts.claimed(), Ok(accounts.reward())),
    }
}

/// Sets the program up with the bumps that were derived for its records, if
/// any were.
pub fn initialize_config_with(
    accounts: &mut InitializeConfig,
    bumps: Option<InitializeConfigBumps>,
    points_per_stake: u8,
    max_stake: u8,
    freeze_period: u32,
) -> (r: Result<RewardMint, ErrorCode>)
    ensures
        (*final(accounts), r) == initialize_config_outcome(
            *old(accounts),
            bumps,
            points_per_stake,
            max_stake,
            freeze_period,
        ),
{
    match bumps {
        Some(b) => accounts.initialize_config(points_per_stake, max_stake, freeze_period, &b),
        None => Err(ErrorCode::NotFound),
    }
}

/// Sets the program `program_id` up: creates the config record at its derived
/// address and returns the reward mint to be established under it.
pub fn initialize_config(
    program_id: &Address,
    accounts: &mut InitializeConfig,
    points_per_stake: u8,
    max_stake: u8,
    freeze_period: u32,
) -> (r: Result<RewardMint, ErrorCode>)
    ensures
        (*final(accounts), r) == initialize_config_outcome(
            *old(accounts),
            config_bumps(program_id@),
            points_per_stake,
            max_stake,
            freeze_period,
        ),
{
    let bumps = find_config_bumps(program_id);
    initialize_config_with(accounts, bumps, points_per_stake, max_stake, freeze_period)
}

/// Opens a participant's account with the bump that was derived for it, if one
/// was.
pub fn initialize_user_with(accounts: &mut Initialize, bumps: Option<InitializeBumps>) -> (r:
    Result<(), ErrorCode>)
    ensures
        (*final(accounts), r) == initialize_user_outcome(*old(accounts), bumps),
{
    match bumps {
        Some(b) => accounts.init_user(&b),
        None => Err(ErrorCode::NotFound),
    }
}

/// Opens the account of the participant who makes the request, at the address
/// derived for it under the program `program_id`.
pub fn initialize_user(program_id: &Address, accounts: &mut Initialize) -> (r: Result<
    (),
    ErrorCode,
>)
    ensures
        (*final(accounts), r) == initialize_user_outcome(
            *old(accounts),
            user_bumps(program_id@, old(accounts).user@),
        ),
{
    let bumps = find_user_bumps(program_id, &accounts.user);
    initialize_user_with(accounts, bumps)
}

/// Stakes an asset at time `now` with the bump that was derived for its custody
/// record, if one was.
pub fn stake_with(accounts: &mut Stake, bumps: Option<StakeBumps>, now: i64) -> (r: Result<
    Transfer,
    ErrorCode,
>)
    ensures
        (*final(accounts), r) == stake_outcome(*old(accounts), bumps, now),
{
    match bumps {
        Some(b) => accounts.stake(&b, now),
        None => Err(ErrorCode::NotFound),
    }
}

/// Stakes an asset at time `now`: creates its custody record at the address
/// derived for it under the program `program_id`, counts it for the
/// participant, and returns the order for the deposit.
pub fn stake(program_id: &Address, accounts: &mut Stake, now: i64) -> (r: Result<
    Transfer,
    ErrorCode,
>)
    ensures
        (*final(accounts), r) == stake_outcome(
            *old(accounts),
            stake_bumps(program_id@, old(accounts).mint@),
            now,
        ),
{
    let bumps = find_stake_bumps(program_id, &accounts.mint);
    stake_with(accounts, bumps, now)
}

/// Reclaims a staked asset at time `now`: rewards the custody period, destroys
/// the custody record, and returns the order for the release.
pub fn unstake(accounts: &mut Unstake, now: i64) -> (r: Result<Release, ErrorCode>)
    ensures
        (*final(accounts), r) == unstake_outcome(*old(accounts), now),
{
    accounts.unstake(now)
}

/// Redeems the participant's points: returns the order to mint one reward unit
/// for each point, and sets the points to zero.
pub fn claim(accounts: &mut Claim) -> (r: Result<MintTo, ErrorCode>)
    ensures
        (*final(accounts), r) == claim_outcome(*old(accounts)),
{
    accounts.claim()
}

} // verus!

use vstd::prelude::*;
use crate::address::Address;
use crate::custody::{Authority, RewardMint};
use crate::error::ErrorCode;
use crate::state::stake_config::StakeConfig;

verus! {

/// The bumps of the addresses derived for the config record and the reward
/// mint.
#[derive(Clone, Copy, Debug, PartialEq, Eq, Structural)]
pub struct InitializeConfigBumps {
    pub config: u8,
    pub rewards_mint: u8,
}

/// What a request to set the program up brings with it.
#[derive(Clone, Copy, Debug, PartialEq, Eq)]
pub struct InitializeConfig {
    /// The administrator who makes the request.
    pub admin: Address,
    /// The place of the config record: empty before the program is set up,
    /// filled by it.
    pub config: Option<StakeConfig>,
}

impl InitializeConfig {
    /// Why the request is refused, if it is: the program can be set up once.
    pub open spec fn refusal(self) -> Option<ErrorCode> {
        if self.config is Some {
            Some(ErrorCode::AlreadyExists)
        } else {
            None
        }
    }

    /// The records after a set-up that was not refused and created `record`.
    pub open spec fn configured(self, record: StakeConfig) -> InitializeConfig {
        InitializeConfig { config: Some(record), ..self }
    }

    /// The config record that the set-up creates.
    pub open spec fn record(
        points_per_stake: u8,
        max_stake: u8,
        freeze_period: u32,
        bumps: InitializeConfigBumps,
    ) -> StakeConfig {
        StakeConfig {
            points_per_stake,
            max_stake,
            freeze_period,
            rewards_bump: bumps.rewards_mint,
            bump: bumps.config,
        }
    }

    /// The reward mint that the set-up establishes: six decimal places, and the
    /// config record's derived address as the only authority that can mint.
    pub open spec fn rewards(bumps: InitializeConfigBumps) -> RewardMint {
        RewardMint {
            decimals: 6,
            authority: Authority::Config { bump: bumps.config },
            bump: bumps.rewards_mint,
        }
    }

    /// Sets the program up. A refused request changes nothing. Otherwise the
    /// config record is created with the given parameters, whatever their
    /// values, and the reward mint to be established is returned.
    pub fn initialize_config(
        &mut self,
        points_per_stake: u8,
        max_stake: u8,
        freeze_period: u32,
        bumps: &InitializeConfigBumps,
    ) -> (r: Result<RewardMint, ErrorCode>)
        ensures
            old(self).refusal() matches Some(e) ==> r == Err::<RewardMint, ErrorCode>(e)
                && *final(self) == *old(self),
            old(self).refusal() is None ==> r == Ok::<RewardMint, ErrorCode>(Self::rewards(*bumps))
                && *final(self) == old(self).configured(
                Self::record(points_per_stake, max_stake, freeze_period, *bumps),
            ),
    {
        if self.config.is_some() {
            return Err(ErrorCode::AlreadyExists);
        }
        self.config = Some(
            StakeConfig {
                points_per_stake,
                max_stake,
                freeze_period,
                rewards_bump: bumps.rewards_mint,
                bump: bumps.config,
            },
        );
        Ok(
            RewardMint {
                decimals: 6,
                authority: Authority::Config { bump: bumps.config },
                bump: bumps.rewards_mint,
            },
        )
    }
}

} // verus!

use vstd::prelude::*;
use crate::state::stake_config::StakeConfig;

verus! {

/// The running totals of one participant.
#[derive(Clone, Copy, Debug, PartialEq, Eq, Structural)]
pub struct UserAccount {
    /// Reward points earned and not yet redeemed.
    pub points: u32,
    /// Assets of this participant that are in custody now.
    pub amount_staked: u8,
    /// Bump of this record's derived address.
    pub bump: u8,
}

impl UserAccount {
    /// The participant holds no more assets in custody than `config` allows.
    pub open spec fn within(self, config: StakeConfig) -> bool {
        self.amount_staked <= config.max_stake
    }

    /// The totals after one more asset went into custody.
    pub open spec fn staked(self) -> UserAccount {
        UserAccount { amount_staked: (self.amount_staked + 1) as u8, ..self }
    }

    /// The totals after one asset was released and its custody period rewarded.
    pub open spec fn unstaked(self, config: StakeConfig) -> UserAccount {
        UserAccount {
            amount_staked: (self.amount_staked - 1) as u8,
            points: (self.points + config.points_per_stake) as u32,
            ..self
        }
    }

    /// The totals after all points were redeemed.
    pub open spec fn claimed(self) -> UserAccount {
        UserAccount { points: 0, ..self }
    }
}

} // verus!

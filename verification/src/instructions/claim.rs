use vstd::prelude::*;
use crate::address::Address;
use crate::custody::{Authority, MintTo, TokenAccount};
use crate::error::ErrorCode;
use crate::state::stake_config::StakeConfig;
use crate::state::user_accounts::UserAccount;

verus! {

/// What a request to redeem reward points brings with it.
#[derive(Clone, Copy, Debug, PartialEq, Eq)]
pub struct Claim {
    /// The participant who makes the request.
    pub user: Address,
    /// The participant's account, if it has been created.
    pub user_account: Option<UserAccount>,
    /// The config record, if it has been created.
    pub config: Option<StakeConfig>,
    /// The reward unit.
    pub reward_mint: Address,
    /// The token account that is to receive the reward.
    pub user_reward_ata: TokenAccount,
}

impl Claim {
    /// Why the request is refused, if it is. A missing record is reported
    /// first, then a receiving account that is not the participant's account
    /// for the reward unit, and last a participant without points.
    pub open spec fn refusal(self) -> Option<ErrorCode> {
        if self.config is None || self.user_account is None {
            Some(ErrorCode::NotFound)
        } else if !self.user_reward_ata.holds_for(self.reward_mint, self.user) {
            Some(ErrorCode::Unauthorized)
        } else if self.user_account.unwrap().points == 0 {
            Some(ErrorCode::LimitExceeded)
        } else {
            None
        }
    }

    /// The records after a claim that was not refused.
    pub open spec fn claimed(self) -> Claim {
        Claim { user_account: Some(self.user_account.unwrap().claimed()), ..self }
    }

    /// The order that a claim that was not refused returns: as many reward
    /// units as the participant has points, minted to the participant on the
    /// authority of the config record's derived address.
    pub open spec fn reward(self) -> MintTo {
        MintTo {
            mint: self.reward_mint,
            to: self.user,
            authority: Authority::Config { bump: self.config.unwrap().bump },
            amount: self.user_account.unwrap().points as u64,
        }
    }

    /// Redeems the participant's points. A refused request changes nothing.
    /// Otherwise the order to mint one reward unit for each point is returned,
    /// and the participant's points are set to zero.
    pub fn claim(&mut self) -> (r: Result<MintTo, ErrorCode>)
        ensures
            old(self).refusal() matches Some(e) ==> r == Err::<MintTo, ErrorCode>(e)
                && *final(self) == *old(self),
            old(self).refusal() is None ==> r == Ok::<MintTo, ErrorCode>(old(self).reward())
                && *final(self) == old(self).claimed(),
    {
        let config = match self.config {
            Some(c) => c,
            None => {
                return Err(ErrorCode::NotFound);
            },
        };
        let account = match self.user_account {
            Some(u) => u,
            None => {
                return Err(ErrorCode::NotFound);
            },
        };
        if !self.user_reward_ata.is_for(&self.reward_mint, &self.user) {
            return Err(ErrorCode::Unauthorized);
        }
        let amount: u32 = account.points;
        if amount == 0 {
            return Err(ErrorCode::LimitExceeded);
        }
        self.user_account = Some(UserAccount { points: 0, ..account });
        Ok(
            MintTo {
                mint: self.reward_mint,
                to: self.user,
                authority: Authority::Config { bump: config.bump },
                amount: amount as u64,
            },
        )
    }
}

/// A claim without points is always refused; a granted claim orders exactly as
/// many reward units as there were points and leaves none.
pub proof fn claim_redeems_all(request: Claim)
    ensures
        request.user_account matches Some(account) && account.points == 0
            ==> request.refusal() is Some,
        request.refusal() is None ==> {
            &&& request.user_account.unwrap().points > 0
            &&& request.reward().amount == request.user_account.unwrap().points
            &&& request.claimed().user_account.unwrap().points == 0
        },
{
}

} // verus!

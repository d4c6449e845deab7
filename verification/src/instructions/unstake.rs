use vstd::prelude::*;
use crate::address::Address;
use crate::custody::{Authority, Holder, TokenAccount, Transfer};
use crate::error::ErrorCode;
use crate::state::stake_account::StakeAccount;
use crate::state::stake_config::StakeConfig;
use crate::state::user_accounts::UserAccount;

verus! {

/// What a request to reclaim a staked asset brings with it.
#[derive(Clone, Copy, Debug, PartialEq, Eq)]
pub struct Unstake {
    /// The participant who makes the request.
    pub user: Address,
    /// The participant's account, if it has been created.
    pub user_account: Option<UserAccount>,
    /// The config record, if it has been created.
    pub config: Option<StakeConfig>,
    /// The asset to be reclaimed.
    pub nft_mint: Address,
    /// The place of the asset's custody record: filled while the asset is in
    /// custody, emptied by the release.
    pub stake_account: Option<StakeAccount>,
    /// The token account that is to receive the asset.
    pub user_nft_ata: TokenAccount,
}

/// What the caller has carried out for a release: the asset goes back, and the
/// storage cost of the closed custody record is refunded.
#[derive(Clone, Copy, Debug, PartialEq, Eq)]
pub struct Release {
    pub transfer: Transfer,
    pub refund_to: Address,
}

impl Unstake {
    /// The custody record is that of this asset and this participant, and the
    /// receiving account is the participant's account for the asset.
    pub open spec fn authorized(self) -> bool {
        &&& self.stake_account.unwrap().owner == self.user
        &&& self.stake_account.unwrap().mint == self.nft_mint
        &&& self.user_nft_ata.holds_for(self.nft_mint, self.user)
    }

    /// The seconds for which the asset has been in custody at time `now`.
    pub open spec fn elapsed(self, now: i64) -> int {
        now - self.stake_account.unwrap().staked_at
    }

    /// Why the request is refused at time `now`, if it is. A missing record is
    /// reported first, then a request that is not the depositor's own, a freeze
    /// period that has not passed, a participant with nothing staked, and last
    /// a point total that would leave its range.
    pub open spec fn refusal(self, now: i64) -> Option<ErrorCode> {
        if self.config is None || self.user_account is None || self.stake_account is None {
            Some(ErrorCode::NotFound)
        } else if !self.authorized() {
            Some(ErrorCode::Unauthorized)
        } else if self.elapsed(now) < self.config.unwrap().freeze_period {
            Some(ErrorCode::NotElapsed)
        } else if self.user_account.unwrap().amount_staked == 0 {
            Some(ErrorCode::LimitExceeded)
        } else if self.user_account.unwrap().points + self.config.unwrap().points_per_stake
            > u32::MAX {
            Some(ErrorCode::Overflow)
        } else {
            None
        }
    }

    /// The records after a release that was not refused.
    pub open spec fn unstaked(self) -> Unstake {
        Unstake {
            stake_account: None,
            user_account: Some(self.user_account.unwrap().unstaked(self.config.unwrap())),
            ..self
        }
    }

    /// What a release that was not refused hands back: one unit goes from the
    /// holding account to the participant's account, on the authority of the
    /// config record's derived address, and the refund goes to the participant.
    pub open spec fn release(self) -> Release {
        Release {
            transfer: Transfer {
                mint: self.nft_mint,
                owner: self.user,
                from: Holder::Vault,
                to: Holder::Owner,
                authority: Authority::Config { bump: self.config.unwrap().bump },
                amount: 1,
            },
            refund_to: self.user,
        }
    }

    /// Reclaims the asset at time `now`. A refused request changes nothing.
    /// Otherwise the participant's count of staked assets falls by one, the
    /// points of one custody period are added, the custody record is
    /// destroyed, and the order for the release is returned.
    pub fn unstake(&mut self, now: i64) -> (r: Result<Release, ErrorCode>)
        ensures
            old(self).refusal(now) matches Some(e) ==> r == Err::<Release, ErrorCode>(e)
                && *final(self) == *old(self),
            old(self).refusal(now) is None ==> r == Ok::<Release, ErrorCode>(old(self).release())
                && *final(self) == old(self).unstaked(),
    {
        let config = match self.config {
            Some(c) => c,
            None => {
                return Err(ErrorCode::NotFound);
            },
        };
        let account = match self.user_account {
            Some(u) => u,
            None => {
                return Err(ErrorCode::NotFound);
            },
        };
        let record = match self.stake_account {
            Some(s) => s,
            None => {
                return Err(ErrorCode::NotFound);
            },
        };
        if !record.owner.same(&self.user) || !record.mint.same(&self.nft_mint)
            || !self.user_nft_ata.is_for(&self.nft_mint, &self.user) {
            return Err(ErrorCode::Unauthorized);
        }
        let elapsed: i128 = now as i128 - record.staked_at as i128;
        if elapsed < config.freeze_period as i128 {
            return Err(ErrorCode::NotElapsed);
        }
        if account.amount_staked == 0 {
            return Err(ErrorCode::LimitExceeded);
        }
        let amount_staked = match account.amount_staked.checked_sub(1) {
            Some(n) => n,
            None => {
                return Err(ErrorCode::Underflow);
            },
        };
        let points = match account.points.checked_add(config.points_per_stake as u32) {
            Some(p) => p,
            None => {
                return Err(ErrorCode::Overflow);
            },
        };
        self.user_account = Some(UserAccount { amount_staked, points, ..account });
        self.stake_account = None;
        Ok(
            Release {
                transfer: Transfer {
                    mint: self.nft_mint,
                    owner: self.user,
                    from: Holder::Vault,
                    to: Holder::Owner,
                    authority: Authority::Config { bump: config.bump },
                    amount: 1,
                },
                refund_to: self.user,
            },
        )
    }
}

/// A release is refused as not elapsed as long as the asset has been in custody
/// for less than the freeze period, whatever the participant's totals.
pub proof fn release_waits_for_freeze(request: Unstake, now: i64)
    requires
        request.config is Some,
        request.user_account is Some,
        request.stake_account is Some,
        request.authorized(),
        request.elapsed(now) < request.config.unwrap().freeze_period,
    ensures
        request.refusal(now) == Some(ErrorCode::NotElapsed),
{
}

/// From the moment the freeze period has passed, that moment included, a
/// release is no longer refused as not elapsed; it is granted where the
/// participant has an asset staked and the points still fit.
pub proof fn release_at_freeze_end(request: Unstake, now: i64)
    requires
        request.config is Some,
        request.user_account is Some,
        request.stake_account is Some,
        request.authorized(),
        request.elapsed(now) >= request.config.unwrap().freeze_period,
    ensures
        request.refusal(now) != Some(ErrorCode::NotElapsed),
        request.user_account.unwrap().amount_staked > 0 && request.user_account.unwrap().points
            + request.config.unwrap().points_per_stake <= u32::MAX ==> request.refusal(now)
            is None,
{
}

} // verus!

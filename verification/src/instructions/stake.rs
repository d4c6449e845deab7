use vstd::prelude::*;
use crate::address::Address;
use crate::custody::{Authority, Holder, MetadataAccount, TokenAccount, Transfer};
use crate::error::ErrorCode;
use crate::state::stake_account::StakeAccount;
use crate::state::stake_config::StakeConfig;
use crate::state::user_accounts::UserAccount;

verus! {

/// The bump of the address derived for the custody record that a stake creates.
#[derive(Clone, Copy, Debug, PartialEq, Eq, Structural)]
pub struct StakeBumps {
    pub stake_account: u8,
}

/// What a request to stake an asset brings with it.
#[derive(Clone, Copy, Debug, PartialEq, Eq)]
pub struct Stake {
    /// The participant who makes the request.
    pub user: Address,
    /// The asset to be staked.
    pub mint: Address,
    /// The collection that the participant declares the asset to belong to.
    pub collection_mint: Address,
    /// The token account from which the asset is to be taken.
    pub mint_ata: TokenAccount,
    /// The metadata registry's answer for the asset.
    pub metadata: MetadataAccount,
    /// The config record, if it has been created.
    pub config: Option<StakeConfig>,
    /// The place of the asset's custody record: empty before a stake, filled by
    /// it.
    pub stake_account: Option<StakeAccount>,
    /// The participant's account, if it has been created.
    pub user_account: Option<UserAccount>,
}

impl Stake {
    /// Why the request is refused, if it is. A missing config record is
    /// reported first, then an asset that is in custody already, a missing
    /// participant account, a token account that is not the participant's
    /// account for the asset, an asset outside the declared collection, and last
    /// a participant at the ceiling.
    pub open spec fn refusal(self) -> Option<ErrorCode> {
        if self.config is None {
            Some(ErrorCode::NotFound)
        } else if self.stake_account is Some {
            Some(ErrorCode::AlreadyExists)
        } else if self.user_account is None {
            Some(ErrorCode::NotFound)
        } else if !self.mint_ata.holds_for(self.mint, self.user) {
            Some(ErrorCode::Unauthorized)
        } else if !self.metadata.member_of(self.collection_mint) {
            Some(ErrorCode::CollectionMismatch)
        } else if self.user_account.unwrap().amount_staked >= self.config.unwrap().max_stake {
            Some(ErrorCode::LimitExceeded)
        } else {
            None
        }
    }

    /// The custody record that a stake at time `now` creates.
    pub open spec fn record(self, bumps: StakeBumps, now: i64) -> StakeAccount {
        StakeAccount {
            owner: self.user,
            mint: self.mint,
            staked_at: now,
            bump: bumps.stake_account,
        }
    }

    /// The records after a stake at time `now` that was not refused.
    pub open spec fn staked(self, bumps: StakeBumps, now: i64) -> Stake {
        Stake {
            stake_account: Some(self.record(bumps, now)),
            user_account: Some(self.user_account.unwrap().staked()),
            ..self
        }
    }

    /// The order that places the asset under program control: one unit goes
    /// from the participant's account into the holding account, on the
    /// participant's own authority.
    pub open spec fn deposit(self) -> Transfer {
        Transfer {
            mint: self.mint,
            owner: self.user,
            from: Holder::Owner,
            to: Holder::Vault,
            authority: Authority::Owner,
            amount: 1,
        }
    }

    /// Stakes the asset at time `now`. A refused request changes nothing.
    /// Otherwise the custody record is created, the participant's count of
    /// staked assets grows by one, and the order for the deposit is returned.
    pub fn stake(&mut self, bumps: &StakeBumps, now: i64) -> (r: Result<Transfer, ErrorCode>)
        ensures
            old(self).refusal() matches Some(e) ==> r == Err::<Transfer, ErrorCode>(e)
                && *final(self) == *old(self),
            old(self).refusal() is None ==> r == Ok::<Transfer, ErrorCode>(old(self).deposit())
                && *final(self) == old(self).staked(*bumps, now),
    {
        let config = match self.config {
            Some(c) => c,
            None => {
                return Err(ErrorCode::NotFound);
            },
        };
        if self.stake_account.is_some() {
            return Err(ErrorCode::AlreadyExists);
        }
        let account = match self.user_account {
            Some(u) => u,
            None => {
                return Err(ErrorCode::NotFound);
            },
        };
        if !self.mint_ata.is_for(&self.mint, &self.user) {
            return Err(ErrorCode::Unauthorized);
        }
        if !self.metadata.is_member_of(&self.collection_mint) {
            return Err(ErrorCode::CollectionMismatch);
        }
        if account.amount_staked >= config.max_stake {
            return Err(ErrorCode::LimitExceeded);
        }
        self.stake_account = Some(
            StakeAccount {
                owner: self.user,
                mint: self.mint,
                staked_at: now,
                bump: bumps.stake_account,
            },
        );
        self.user_account = Some(
            UserAccount { amount_staked: account.amount_staked + 1, ..account },
        );
        Ok(
            Transfer {
                mint: self.mint,
                owner: self.user,
                from: Holder::Owner,
                to: Holder::Vault,
                authority: Authority::Owner,
                amount: 1,
            },
        )
    }
}

} // verus!

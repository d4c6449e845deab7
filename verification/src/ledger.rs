//! The records of all participants and assets taken together, as the ledger
//! holds them between requests, and what holds of them whatever is requested.

use vstd::prelude::*;
use vstd::set_lib::lemma_set_subset_finite;
use crate::address::Address;
use crate::custody::{Holder, Transfer};
use crate::error::ErrorCode;
use crate::instructions::claim::Claim;
use crate::instructions::initialize_user_accounts::{Initialize, InitializeBumps};
use crate::instructions::stake::{Stake, StakeBumps};
use crate::instructions::unstake::Unstake;
use crate::state::stake_account::StakeAccount;
use crate::state::stake_config::StakeConfig;
use crate::state::user_accounts::UserAccount;

verus! {

/// One request to the program.
pub enum Request {
    /// A participant opens an account.
    Open { open: Initialize, open_bumps: InitializeBumps },
    /// A participant stakes an asset at the time `staked_at`.
    Stake { stake: Stake, stake_bumps: StakeBumps, staked_at: i64 },
    /// A participant reclaims an asset at the time `released_at`.
    Unstake { unstake: Unstake, released_at: i64 },
    /// A participant redeems points.
    Claim { claim: Claim },
}

/// What the ledger holds once the program is set up: the config record, the
/// account of each participant, the custody record of each asset, and the assets
/// that are in their holding accounts.
pub struct Ledger {
    pub config: StakeConfig,
    pub accounts: Map<Address, UserAccount>,
    pub records: Map<Address, StakeAccount>,
    pub vault: Set<Address>,
}

impl Ledger {
    /// The ledger right after the program was set up.
    pub open spec fn new(config: StakeConfig) -> Ledger {
        Ledger { config, accounts: Map::empty(), records: Map::empty(), vault: Set::empty() }
    }

    /// The account of `user`, if it has been opened.
    pub open spec fn account_of(self, user: Address) -> Option<UserAccount> {
        if self.accounts.dom().contains(user) {
            Some(self.accounts[user])
        } else {
            None
        }
    }

    /// The custody record of `mint`, if the asset is in custody.
    pub open spec fn record_of(self, mint: Address) -> Option<StakeAccount> {
        if self.records.dom().contains(mint) {
            Some(self.records[mint])
        } else {
            None
        }
    }

    /// Where the asset `mint` is held.
    pub open spec fn holder_of(self, mint: Address) -> Holder {
        if self.vault.contains(mint) {
            Holder::Vault
        } else {
            Holder::Owner
        }
    }

    /// The assets in their holding accounts once `order` is carried out.
    pub open spec fn carried_out(self, order: Transfer) -> Set<Address> {
        match order.moves(self.holder_of(order.mint)) {
            Holder::Vault => self.vault.insert(order.mint),
            Holder::Owner => self.vault.remove(order.mint),
        }
    }

    /// The assets whose custody records name `user` as the depositor.
    pub open spec fn staked_by(self, user: Address) -> Set<Address> {
        Set::new(
            |mint: Address| self.records.dom().contains(mint) && self.records[mint].owner == user,
        )
    }

    /// The records agree with each other: an asset has a custody record
    /// exactly while it is in its holding account; each custody record is kept
    /// under its own asset and names a depositor whose account exists; and each
    /// participant's count of staked assets is the number of custody records
    /// that name the participant, and within the ceiling.
    pub open spec fn sound(self) -> bool {
        &&& self.records.dom().finite()
        &&& self.vault == self.records.dom()
        &&& forall|mint: Address| #[trigger]
            self.records.dom().contains(mint) ==> self.records[mint].mint == mint
                && self.accounts.dom().contains(self.records[mint].owner)
        &&& forall|user: Address| #[trigger]
            self.accounts.dom().contains(user) ==> self.accounts[user].amount_staked
                == self.staked_by(user).len() && self.accounts[user].within(self.config)
    }

    /// The ledger after `request`: the operation finds the records of the
    /// participant and the asset that the request names, a refused request
    /// changes nothing, and what a granted request writes and orders is
    /// committed together.
    pub open spec fn after(self, request: Request) -> Ledger {
        match request {
            Request::Open { open: request, open_bumps: bumps } => {
                let found = Initialize { user_account: self.account_of(request.user), ..request };
                if found.refusal() is None {
                    Ledger {
                        accounts: self.accounts.insert(
                            request.user,
                            found.opened(bumps).user_account.unwrap(),
                        ),
                        ..self
                    }
                } else {
                    self
                }
            },
            Request::Stake { stake: request, stake_bumps: bumps, staked_at: now } => {
                let found = Stake {
                    config: Some(self.config),
                    user_account: self.account_of(request.user),
                    stake_account: self.record_of(request.mint),
                    ..request
                };
                if found.refusal() is None {
                    let written = found.staked(bumps, now);
                    Ledger {
                        accounts: self.accounts.insert(
                            request.user,
                            written.user_account.unwrap(),
                        ),
                        records: self.records.insert(request.mint, written.stake_account.unwrap()),
                        vault: self.carried_out(found.deposit()),
                        ..self
                    }
                } else {
                    self
                }
            },
            Request::Unstake { unstake: request, released_at: now } => {
                let found = Unstake {
                    config: Some(self.config),
                    user_account: self.account_of(request.user),
                    stake_account: self.record_of(request.nft_mint),
                    ..request
                };
                if found.refusal(now) is None {
                    Ledger {
                        accounts: self.accounts.insert(
                            request.user,
                            found.unstaked().user_account.unwrap(),
                        ),
                        records: self.records.remove(request.nft_mint),
                        vault: self.carried_out(found.release().transfer),
                        ..self
                    }
                } else {
                    self
                }
            },
            Request::Claim { claim: request } => {
                let found = Claim {
                    config: Some(self.config),
                    user_account: self.account_of(request.user),
                    ..request
                };
                if found.refusal() is None {
                    Ledger {
                        accounts: self.accounts.insert(
                            request.user,
                            found.claimed().user_account.unwrap(),
                        ),
                        ..self
                    }
                } else {
                    self
                }
            },
        }
    }

    /// The ledger after all of `requests`, in their order.
    pub open spec fn after_all(self, requests: Seq<Request>) -> Ledger
        decreases requests.len(),
    {
        if requests.len() == 0 {
            self
        } else {
            self.after_all(requests.drop_last()).after(requests.last())
        }
    }
}

/// The assets that a participant has staked are finitely many.
proof fn lemma_staked_by_finite(ledger: Ledger, user: Address)
    requires
        ledger.records.dom().finite(),
    ensures
        ledger.staked_by(user).finite(),
{
    assert(ledger.staked_by(user).subset_of(ledger.records.dom()));
    lemma_set_subset_finite(ledger.records.dom(), ledger.staked_by(user));
}

/// One request keeps a sound ledger sound.
pub proof fn request_keeps_ledger_sound(ledger: Ledger, request: Request)
    requires
        ledger.sound(),
    ensures
        ledger.after(request).sound(),
        ledger.after(request).config == ledger.config,
{
    let next = ledger.after(request);
    if next != ledger {
        match request {
            Request::Open { open: request, .. } => {
                assert(ledger.staked_by(request.user) =~= Set::<Address>::empty());
                assert forall|other: Address| #[trigger]
                    next.accounts.dom().contains(other) implies next.accounts[other].amount_staked
                    == next.staked_by(other).len() && next.accounts[other].within(next.config) by {
                    assert(next.staked_by(other) =~= ledger.staked_by(other));
                }
            },
            Request::Stake { stake: request, .. } => {
                let user = request.user;
                let mint = request.mint;
                assert(next.vault =~= next.records.dom());
                assert forall|other: Address| #[trigger]
                    next.accounts.dom().contains(other) implies next.accounts[other].amount_staked
                    == next.staked_by(other).len() && next.accounts[other].within(next.config) by {
                    if other == user {
                        lemma_staked_by_finite(ledger, user);
                        assert(next.staked_by(user) =~= ledger.staked_by(user).insert(mint));
                    } else {
                        assert(next.staked_by(other) =~= ledger.staked_by(other));
                    }
                }
            },
            Request::Unstake { unstake: request, .. } => {
                let user = request.user;
                let mint = request.nft_mint;
                assert(next.vault =~= next.records.dom());
                assert forall|other: Address| #[trigger]
                    next.accounts.dom().contains(other) implies next.accounts[other].amount_staked
                    == next.staked_by(other).len() && next.accounts[other].within(next.config) by {
                    if other == user {
                        lemma_staked_by_finite(ledger, user);
                        assert(ledger.staked_by(user).contains(mint));
                        assert(next.staked_by(user) =~= ledger.staked_by(user).remove(mint));
                    } else {
                        assert(next.staked_by(other) =~= ledger.staked_by(other));
                    }
                }
            },
            Request::Claim { .. } => {
                assert forall|other: Address| #[trigger]
                    next.accounts.dom().contains(other) implies next.accounts[other].amount_staked
                    == next.staked_by(other).len() && next.accounts[other].within(next.config) by {
                    assert(next.staked_by(other) =~= ledger.staked_by(other));
                }
            },
        }
    }
}

/// From the moment the program is set up, whatever is requested and in whatever
/// order, the ledger is sound: no participant's count of staked assets exceeds
/// the ceiling or falls below zero, and it is always the number of the
/// participant's custody records.
pub proof fn ledger_is_always_sound(config: StakeConfig, requests: Seq<Request>)
    ensures
        Ledger::new(config).after_all(requests).sound(),
        Ledger::new(config).after_all(requests).config == config,
    decreases requests.len(),
{
    if requests.len() == 0 {
        assert(Ledger::new(config).records.dom() =~= Set::<Address>::empty());
        assert(Ledger::new(config).vault =~= Ledger::new(config).records.dom());
    } else {
        ledger_is_always_sound(config, requests.drop_last());
        request_keeps_ledger_sound(
            Ledger::new(config).after_all(requests.drop_last()),
            requests.last(),
        );
    }
}

/// On a sound ledger the depositor of an asset in custody has at least one
/// asset staked: a release is never refused for want of one, and the count
/// never underflows.
pub proof fn depositor_has_an_asset_staked(ledger: Ledger, request: Unstake, now: i64)
    requires
        ledger.sound(),
    ensures
        ({
            let found = Unstake {
                config: Some(ledger.config),
                user_account: ledger.account_of(request.user),
                stake_account: ledger.record_of(request.nft_mint),
                ..request
            };
            &&& found.refusal(now) != Some(ErrorCode::LimitExceeded)
            &&& found.refusal(now) != Some(ErrorCode::Underflow)
        }),
{
    let found = Unstake {
        config: Some(ledger.config),
        user_account: ledger.account_of(request.user),
        stake_account: ledger.record_of(request.nft_mint),
        ..request
    };
    if found.user_account is Some && found.stake_account is Some && found.authorized() {
        lemma_staked_by_finite(ledger, request.user);
        assert(ledger.staked_by(request.user).contains(request.nft_mint));
    }
}

/// A second stake of an asset that is in custody is refused as already
/// existing and leaves the ledger, the first custody record included, as it
/// was.
pub proof fn second_stake_changes_nothing(
    ledger: Ledger,
    first: Request,
    second: Request,
)
    requires
        first is Stake,
        second is Stake,
        first->stake.mint == second->stake.mint,
        ledger.after(first) != ledger,
    ensures
        ({
            let staked = ledger.after(first);
            let again = Stake {
                config: Some(staked.config),
                user_account: staked.account_of(second->stake.user),
                stake_account: staked.record_of(second->stake.mint),
                ..second->stake
            };
            &&& again.refusal() == Some(ErrorCode::AlreadyExists)
            &&& staked.after(second) == staked
        }),
{
}

/// A stake and the release of the same asset by the same participant, once the
/// freeze period has passed, leave the asset in the owner's own account and no
/// custody record behind; the participant's count of staked assets is what it
/// was, and the points of one custody period are added.
pub proof fn release_restores_asset(ledger: Ledger, stake: Request, release: Request)
    requires
        ledger.sound(),
        stake is Stake,
        release is Unstake,
        ledger.after(stake) != ledger,
        release->unstake.user == stake->stake.user,
        release->unstake.nft_mint == stake->stake.mint,
        release->unstake.user_nft_ata.holds_for(
            stake->stake.mint,
            stake->stake.user,
        ),
        release->released_at - stake->staked_at >= ledger.config.freeze_period,
        ledger.accounts[stake->stake.user].points + ledger.config.points_per_stake
            <= u32::MAX,
    ensures
        ({
            let mint = stake->stake.mint;
            let user = stake->stake.user;
            let held = ledger.after(stake);
            let back = held.after(release);
            &&& ledger.holder_of(mint) == Holder::Owner
            &&& held.holder_of(mint) == Holder::Vault
            &&& held.record_of(mint) is Some
            &&& back.holder_of(mint) == Holder::Owner
            &&& back.record_of(mint) is None
            &&& back.records == ledger.records
            &&& back.vault == ledger.vault
            &&& back.accounts[user].amount_staked == ledger.accounts[user].amount_staked
            &&& back.accounts[user].points == ledger.accounts[user].points
                + ledger.config.points_per_stake
        }),
{
    let mint = stake->stake.mint;
    let back = ledger.after(stake).after(release);
    assert(!ledger.records.dom().contains(mint));
    assert(back.records =~= ledger.records);
    assert(back.vault =~= ledger.vault);
}

/// With no freeze period, a participant who has nothing staked and no points
/// can reclaim an asset in the moment it was staked: the release is granted,
/// the participant has the points of one custody period and nothing staked, and
/// the custody record is gone.
pub proof fn immediate_release_without_freeze(ledger: Ledger, stake: Request, release: Request)
    requires
        ledger.sound(),
        ledger.config.freeze_period == 0,
        stake is Stake,
        release is Unstake,
        ledger.after(stake) != ledger,
        ledger.accounts[stake->stake.user].amount_staked == 0,
        ledger.accounts[stake->stake.user].points == 0,
        release->unstake.user == stake->stake.user,
        release->unstake.nft_mint == stake->stake.mint,
        release->unstake.user_nft_ata.holds_for(
            stake->stake.mint,
            stake->stake.user,
        ),
        release->released_at == stake->staked_at,
    ensures
        ({
            let user = stake->stake.user;
            let back = ledger.after(stake).after(release);
            &&& back != ledger.after(stake)
            &&& back.accounts[user].points == ledger.config.points_per_stake
            &&& back.accounts[user].amount_staked == 0
            &&& back.record_of(stake->stake.mint) is None
        }),
{
    release_restores_asset(ledger, stake, release);
}

} // verus!

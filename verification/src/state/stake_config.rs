use vstd::prelude::*;

verus! {

/// The program-wide parameters. The record is written once and never changed;
/// its derived address authorises reward minting and the release of assets.
#[derive(Clone, Copy, Debug, PartialEq, Eq, Structural)]
pub struct StakeConfig {
    /// Reward points granted for each completed custody period.
    pub points_per_stake: u8,
    /// How many assets one participant may have in custody at a time.
    pub max_stake: u8,
    /// Seconds an asset must stay in custody before it may be reclaimed.
    pub freeze_period: u32,
    /// Bump of the reward mint's derived address.
    pub rewards_bump: u8,
    /// Bump of this record's own derived address.
    pub bump: u8,
}

} // verus!

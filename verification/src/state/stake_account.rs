use vstd::prelude::*;
use crate::address::Address;

verus! {

/// The custody record of one asset. It exists exactly while the asset is under
/// program control.
#[derive(Clone, Copy, Debug, PartialEq, Eq)]
pub struct StakeAccount {
    /// The participant who deposited the asset.
    pub owner: Address,
    /// The asset in custody.
    pub mint: Address,
    /// When the asset was deposited, in seconds.
    pub staked_at: i64,
    /// Bump of this record's derived address.
    pub bump: u8,
}

} // verus!

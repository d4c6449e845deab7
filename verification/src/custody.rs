//! Custody by vault transfer. An asset is placed under program control by
//! moving it into a holding account that the config record's derived address
//! owns, and released by moving it back. The library decides and says what is to
//! be moved; the caller has the token service carry it out in the same
//! transaction.

use vstd::prelude::*;
use crate::address::Address;

verus! {

/// What the rules read of a token account.
#[derive(Clone, Copy, Debug, PartialEq, Eq)]
pub struct TokenAccount {
    /// The asset or unit that the account holds.
    pub mint: Address,
    /// Who may move what the account holds.
    pub owner: Address,
}

impl TokenAccount {
    /// The account holds `mint` for `owner`.
    pub open spec fn holds_for(self, mint: Address, owner: Address) -> bool {
        self.mint == mint && self.owner == owner
    }

    /// Whether the account holds `mint` for `owner`.
    pub fn is_for(&self, mint: &Address, owner: &Address) -> (r: bool)
        ensures
            r == self.holds_for(*mint, *owner),
    {
        self.mint.same(mint) && self.owner.same(owner)
    }
}

/// The collection that an asset's metadata names, and whether the collection's
/// own authority has confirmed the membership.
#[derive(Clone, Copy, Debug, PartialEq, Eq)]
pub struct Collection {
    pub key: Address,
    pub verified: bool,
}

/// What the metadata registry answers for an asset.
#[derive(Clone, Copy, Debug, PartialEq, Eq)]
pub struct MetadataAccount {
    pub collection: Option<Collection>,
}

impl MetadataAccount {
    /// The asset is a confirmed member of `collection`.
    pub open spec fn member_of(self, collection: Address) -> bool {
        match self.collection {
            Some(c) => c.key == collection && c.verified,
            None => false,
        }
    }

    /// Whether the asset is a confirmed member of `collection`.
    pub fn is_member_of(&self, collection: &Address) -> (r: bool)
        ensures
            r == self.member_of(*collection),
    {
        match &self.collection {
            Some(c) => c.key.same(collection) && c.verified,
            None => false,
        }
    }
}

/// Where an asset is held.
#[derive(Clone, Copy, Debug, PartialEq, Eq, Structural)]
pub enum Holder {
    /// In the owner's own token account: the owner alone can move it.
    Owner,
    /// In the program's holding account for this asset.
    Vault,
}

/// Who authorises a token operation.
#[derive(Clone, Copy, Debug, PartialEq, Eq, Structural)]
pub enum Authority {
    /// The participant, by the signature on the request.
    Owner,
    /// The config record, by the seeds of its derived address.
    Config { bump: u8 },
}

/// An order to move `amount` of `mint` between the accounts of `owner` and the
/// program.
#[derive(Clone, Copy, Debug, PartialEq, Eq)]
pub struct Transfer {
    pub mint: Address,
    pub owner: Address,
    pub from: Holder,
    pub to: Holder,
    pub authority: Authority,
    pub amount: u64,
}

impl Transfer {
    /// Where an asset that was held at `at` is held once the order is carried out.
    pub open spec fn moves(self, at: Holder) -> Holder {
        if at == self.from {
            self.to
        } else {
            at
        }
    }
}

/// The reward mint as it is established with the config record.
#[derive(Clone, Copy, Debug, PartialEq, Eq, Structural)]
pub struct RewardMint {
    /// Decimal places of the reward unit.
    pub decimals: u8,
    /// Who alone can mint the reward unit.
    pub authority: Authority,
    /// Bump of the mint's derived address.
    pub bump: u8,
}

/// An order to mint `amount` of the reward unit `mint` to the reward account of
/// `to`.
#[derive(Clone, Copy, Debug, PartialEq, Eq)]
pub struct MintTo {
    pub mint: Address,
    pub to: Address,
    pub authority: Authority,
    pub amount: u64,
}

} // verus!

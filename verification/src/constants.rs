//! The tags that begin the seeds of the program's derived addresses.

use vstd::prelude::*;

verus! {

/// The bytes of `config`.
pub open spec fn config_seed() -> Seq<u8> {
    seq![99u8, 111u8, 110u8, 102u8, 105u8, 103u8]
}

/// The bytes of `rewards`.
pub open spec fn rewards_seed() -> Seq<u8> {
    seq![114u8, 101u8, 119u8, 97u8, 114u8, 100u8, 115u8]
}

/// The bytes of `user`.
pub open spec fn user_seed() -> Seq<u8> {
    seq![117u8, 115u8, 101u8, 114u8]
}

/// The bytes of `stake`.
pub open spec fn stake_seed() -> Seq<u8> {
    seq![115u8, 116u8, 97u8, 107u8, 101u8]
}

/// The bytes of `vault`.
pub open spec fn vault_seed() -> Seq<u8> {
    seq![118u8, 97u8, 117u8, 108u8, 116u8]
}

/// The tag of the config record's address.
pub fn config_tag() -> (tag: Vec<u8>)
    ensures
        tag@ == config_seed(),
{
    vec![99u8, 111u8, 110u8, 102u8, 105u8, 103u8]
}

/// The tag of the reward mint's address.
pub fn rewards_tag() -> (tag: Vec<u8>)
    ensures
        tag@ == rewards_seed(),
{
    vec![114u8, 101u8, 119u8, 97u8, 114u8, 100u8, 115u8]
}

/// The tag of a participant account's address.
pub fn user_tag() -> (tag: Vec<u8>)
    ensures
        tag@ == user_seed(),
{
    vec![117u8, 115u8, 101u8, 114u8]
}

/// The tag of a custody record's address.
pub fn stake_tag() -> (tag: Vec<u8>)
    ensures
        tag@ == stake_seed(),
{
    vec![115u8, 116u8, 97u8, 107u8, 101u8]
}

/// The tag of a holding account's address.
pub fn vault_tag() -> (tag: Vec<u8>)
    ensures
        tag@ == vault_seed(),
{
    vec![118u8, 97u8, 117u8, 108u8, 116u8]
}

} // verus!

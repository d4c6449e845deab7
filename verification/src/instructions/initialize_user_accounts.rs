use vstd::prelude::*;
use crate::address::Address;
use crate::error::ErrorCode;
use crate::state::user_accounts::UserAccount;

verus! {

/// The bump of the address derived for the participant's account.
#[derive(Clone, Copy, Debug, PartialEq, Eq, Structural)]
pub struct InitializeBumps {
    pub user_account: u8,
}

/// What a request to open a participant's account brings with it.
#[derive(Clone, Copy, Debug, PartialEq, Eq)]
pub struct Initialize {
    /// The participant who makes the request.
    pub user: Address,
    /// The place of the participant's account: empty before the first use,
    /// filled by it.
    pub user_account: Option<UserAccount>,
}

impl Initialize {
    /// Why the request is refused, if it is: an account that exists is never
    /// reset.
    pub open spec fn refusal(self) -> Option<ErrorCode> {
        if self.user_account is Some {
            Some(ErrorCode::AlreadyExists)
        } else {
            None
        }
    }

    /// The records after an opening that was not refused.
    pub open spec fn opened(self, bumps: InitializeBumps) -> Initialize {
        Initialize { user_account: Some(Self::empty(bumps)), ..self }
    }

    /// The account of a participant who has staked and earned nothing yet.
    pub open spec fn empty(bumps: InitializeBumps) -> UserAccount {
        UserAccount { points: 0, amount_staked: 0, bump: bumps.user_account }
    }

    /// Opens the participant's account. A refused request changes nothing.
    /// Otherwise the account is created empty.
    pub fn init_user(&mut self, bumps: &InitializeBumps) -> (r: Result<(), ErrorCode>)
        ensures
            old(self).refusal() matches Some(e) ==> r == Err::<(), ErrorCode>(e) && *final(self)
                == *old(self),
            old(self).refusal() is None ==> r == Ok::<(), ErrorCode>(()) && *final(self) == old(
                self,
            ).opened(*bumps),
    {
        if self.user_account.is_some() {
            return Err(ErrorCode::AlreadyExists);
        }
        self.user_account = Some(
            UserAccount { points: 0, amount_staked: 0, bump: bumps.user_account },
        );
        Ok(())
    }
}

} // verus!

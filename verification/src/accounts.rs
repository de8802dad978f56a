//! What the operations read of the world around the tournament: who holds
//! which token, and what time it is.

use vstd::prelude::*;

use crate::pubkey::Pubkey;

verus! {

/// A holding: how much of one token one owner has in one account.
#[derive(Clone, Copy, Debug, PartialEq, Eq)]
pub struct TokenAccount {
    pub owner: Pubkey,
    pub mint: Pubkey,
    pub amount: u64,
}

impl TokenAccount {
    /// The account shows that `holder` holds the collectible `nft_mint`:
    /// it is the holder's, of that mint, and has the one token there is.
    pub open spec fn shows_holder(self, holder: Pubkey, nft_mint: Pubkey) -> bool {
        &&& self.owner == holder
        &&& self.mint == nft_mint
        &&& self.amount == 1
    }

    /// Tests `shows_holder`.
    pub fn proves_holder(&self, holder: &Pubkey, nft_mint: &Pubkey) -> (held: bool)
        ensures
            held == self.shows_holder(*holder, *nft_mint),
    {
        self.owner == *holder && self.mint == *nft_mint && self.amount == 1
    }
}

/// The time, in seconds, as the host's clock tells it. It never runs
/// backwards.
#[derive(Clone, Copy, Debug, PartialEq, Eq)]
pub struct Clock {
    pub unix_timestamp: i64,
}

} // verus!

//! What each operation announces once it has taken effect.

use vstd::prelude::*;

use crate::pubkey::Pubkey;
use crate::state::ActionType;

verus! {

/// A battleground was created.
#[derive(Clone, Copy, Debug, PartialEq, Eq)]
pub struct CreateBattlegroundEvent {
    pub battleground: Pubkey,
}

/// A collectible entered a battleground with the given split of the stat
/// budget.
#[derive(Clone, Copy, Debug, PartialEq, Eq)]
pub struct JoinBattlegroundEvent {
    pub battleground: Pubkey,
    pub nft_mint: Pubkey,
    pub attack: u32,
    pub defense: u32,
}

/// An eliminated collectible withdrew its registration.
#[derive(Clone, Copy, Debug, PartialEq, Eq)]
pub struct LeaveBattlegroundEvent {
    pub battleground: Pubkey,
    pub nft_mint: Pubkey,
}

/// The battle began.
#[derive(Clone, Copy, Debug, PartialEq, Eq)]
pub struct StartBattleEvent {
    pub battleground: Pubkey,
}

/// A participant acted, and the action consumed the given points.
#[derive(Clone, Copy, Debug, PartialEq, Eq)]
pub struct ParticipantActionEvent {
    pub battleground: Pubkey,
    pub participant: Pubkey,
    pub action_type: ActionType,
    pub action_points_spent: u32,
}

/// The battle ended and the winner is owed the pot.
#[derive(Clone, Copy, Debug, PartialEq, Eq)]
pub struct FinishBattleEvent {
    pub battleground: Pubkey,
    pub winner: Pubkey,
    pub pot_mint: Pubkey,
    pub pot_amount: u64,
}

} // verus!

//! The records of the tournament: the registry, a battleground, and an
//! entrant's combat record.

use vstd::prelude::*;

use crate::collection::CollectionInfo;
use crate::pubkey::Pubkey;

verus! {

/// Attack every entrant has before its own share of the stat budget.
pub const BASE_ATTACK: u32 = 100;

/// Defense every entrant has before its own share of the stat budget.
pub const BASE_DEFENSE: u32 = 50;

/// Health every entrant has before the part that its defense grants.
pub const BASE_HEALTH: u32 = 750;

/// Health that each point of defense grants.
pub const HEALTH_PER_DEFENSE: u32 = 5;

/// Points an entrant may split between attack and defense when it joins.
pub const STAT_BUDGET: u32 = 100;

/// Basis points that make up the whole of an entry fee.
pub const FEE_DENOMINATOR: u16 = 10000;

/// The registry of all battlegrounds: who operates them, what share of each
/// entry fee the operator keeps, and the id the next battleground receives.
#[derive(Clone, Copy, Debug, PartialEq, Eq)]
pub struct BattleRoyaleState {
    pub game_master: Pubkey,
    pub fee: u16,
    pub last_battleground_id: u64,
}

/// Where a battleground stands in its round.
#[derive(Clone, Copy, Debug, PartialEq, Eq, Structural)]
pub enum BattlegroundStatus {
    /// Entrants are being admitted.
    Preparing,
    /// The battle runs: entrants act, nobody enters or leaves.
    Ongoing,
    /// Reserved; no operation puts a battleground in this state.
    Finished,
}

/// What an entrant does with its action points.
#[derive(Clone, Copy, Debug, PartialEq, Eq, Structural)]
pub enum ActionType {
    Attack,
    Heal,
}

/// One tournament.
#[derive(Clone, Debug, PartialEq, Eq)]
pub struct BattlegroundState {
    pub id: u64,
    pub collection_info: CollectionInfo,
    pub start_time: i64,
    pub action_points_per_day: u32,
    pub participants_cap: u32,
    pub participants: u32,
    pub status: BattlegroundStatus,
    pub pot_mint: Pubkey,
    pub entry_fee: u64,
    pub last_winner: Option<Pubkey>,
    pub whitelist_root: Option<[u8; 32]>,
}

/// One entrant's combat record in one battleground.
#[derive(Clone, Copy, Debug, PartialEq, Eq)]
pub struct ParticipantState {
    pub battleground: Pubkey,
    pub nft_mint: Pubkey,
    pub attack: u32,
    pub defense: u32,
    pub health_points: u32,
    pub action_points_spent: u32,
    pub alive: bool,
}

/// The most health an entrant with the given defense can have.
pub open spec fn max_health(defense: int) -> int {
    BASE_HEALTH + defense * HEALTH_PER_DEFENSE
}

/// Computes the most health an entrant with the given defense can have.
pub fn full_health(defense: u32) -> (health: u32)
    requires
        max_health(defense as int) <= u32::MAX,
    ensures
        health == max_health(defense as int),
{
    BASE_HEALTH + defense * HEALTH_PER_DEFENSE
}

impl BattleRoyaleState {
    /// The fee is a share of the whole: at most all of it.
    pub open spec fn wf(self) -> bool {
        self.fee <= FEE_DENOMINATOR
    }

    /// Tests `wf`.
    pub fn is_valid(&self) -> (valid: bool)
        ensures
            valid == self.wf(),
    {
        self.fee <= FEE_DENOMINATOR
    }
}

impl BattlegroundState {
    /// The roster never exceeds the capacity, and the collection criterion
    /// is one that a battleground can be created with.
    pub open spec fn wf(self) -> bool {
        &&& self.participants <= self.participants_cap
        &&& self.collection_info.wf()
    }

    /// Tests `wf`.
    pub fn is_valid(&self) -> (valid: bool)
        ensures
            valid == self.wf(),
    {
        self.participants <= self.participants_cap && self.collection_info.is_valid()
    }

    /// Whether two states of a battleground have the same terms: what a
    /// battleground is created with and keeps for good.
    pub open spec fn same_terms(self, other: BattlegroundState) -> bool {
        &&& self.id == other.id
        &&& self.collection_info == other.collection_info
        &&& self.action_points_per_day == other.action_points_per_day
        &&& self.participants_cap == other.participants_cap
        &&& self.pot_mint == other.pot_mint
        &&& self.entry_fee == other.entry_fee
        &&& self.whitelist_root == other.whitelist_root
    }
}

impl ParticipantState {
    /// A living entrant has the stats of some admissible split of the stat
    /// budget, and a health between one and the most its defense allows.
    pub open spec fn wf(self) -> bool {
        self.alive ==> {
            &&& BASE_ATTACK <= self.attack
            &&& BASE_DEFENSE <= self.defense
            &&& self.attack + self.defense <= BASE_ATTACK + BASE_DEFENSE + STAT_BUDGET
            &&& 0 < self.health_points <= max_health(self.defense as int)
        }
    }

    /// Tests `wf`.
    pub fn is_valid(&self) -> (valid: bool)
        ensures
            valid == self.wf(),
    {
        if !self.alive {
            return true;
        }
        if self.attack < BASE_ATTACK || self.defense < BASE_DEFENSE {
            return false;
        }
        if self.attack > BASE_ATTACK + STAT_BUDGET || self.defense > BASE_DEFENSE + STAT_BUDGET {
            return false;
        }
        self.attack + self.defense <= BASE_ATTACK + BASE_DEFENSE + STAT_BUDGET
            && 0 < self.health_points && self.health_points <= full_health(self.defense)
    }

    /// Whether two states of a record are of the same entrant with the same
    /// stats: what an entrant is admitted with and keeps for the round.
    pub open spec fn same_entrant(self, other: ParticipantState) -> bool {
        &&& self.battleground == other.battleground
        &&& self.nft_mint == other.nft_mint
        &&& self.attack == other.attack
        &&& self.defense == other.defense
    }

    /// The record of a collectible that has not entered yet.
    pub open spec fn is_blank(self) -> bool {
        &&& self.battleground.is_zero()
        &&& self.nft_mint.is_zero()
        &&& self.attack == 0
        &&& self.defense == 0
        &&& self.health_points == 0
        &&& self.action_points_spent == 0
        &&& !self.alive
    }
}

impl Default for ParticipantState {
    fn default() -> (record: ParticipantState)
        ensures
            record.is_blank(),
            record.wf(),
    {
        ParticipantState {
            battleground: Pubkey::default(),
            nft_mint: Pubkey::default(),
            attack: 0,
            defense: 0,
            health_points: 0,
            action_points_spent: 0,
            alive: false,
        }
    }
}

} // verus!

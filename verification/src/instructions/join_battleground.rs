//! A collectible enters a battleground.

use vstd::prelude::*;

use crate::accounts::TokenAccount;
use crate::collection::{collection_verified, verify_collection, NftMetadata};
use crate::errors::BattleRoyaleError;
use crate::events::JoinBattlegroundEvent;
use crate::pubkey::Pubkey;
use crate::settlement::{pot_share, protocol_share, split_entry_fee, EntryFeeSplit};
use crate::state::{
    full_health, max_health, BattleRoyaleState, BattlegroundState, BattlegroundStatus,
    ParticipantState, BASE_ATTACK, BASE_DEFENSE, STAT_BUDGET,
};

verus! {

/// The records an admission concerns: the registry, the battleground, the
/// collectible with what its registry declares of it, the collectible's
/// record in this battleground, and the caller with the token account that
/// shows it holds the collectible.
#[derive(Clone, Debug, PartialEq, Eq)]
pub struct JoinBattleground {
    pub signer: Pubkey,
    pub battle_royale: BattleRoyaleState,
    pub battleground_key: Pubkey,
    pub battleground: BattlegroundState,
    pub participant: ParticipantState,
    pub nft_mint: Pubkey,
    pub nft_metadata: NftMetadata,
    pub player_nft_token_account: TokenAccount,
}

/// What an admission leaves to be done: the entry fee is owed in two parts,
/// one to the operator and one to the pot of the battleground, both in the
/// pot's denomination, and the admission is announced.
#[derive(Clone, Copy, Debug, PartialEq, Eq)]
pub struct Admission {
    /// The two parts of the entry fee.
    pub fee: EntryFeeSplit,
    /// Who is owed the protocol share.
    pub operator: Pubkey,
    /// The token in which both parts are owed.
    pub pot_mint: Pubkey,
    /// What is announced.
    pub event: JoinBattlegroundEvent,
}

impl JoinBattleground {
    /// The registry is well formed: the shares of the entry fee can be
    /// told.
    pub open spec fn wf(self) -> bool {
        self.battle_royale.wf()
    }

    /// Tests `wf`.
    pub fn is_valid(&self) -> (valid: bool)
        ensures
            valid == self.wf(),
    {
        self.battle_royale.is_valid()
    }

    /// Whether the metadata is that of the collectible and the collectible
    /// belongs to the battleground's collection.
    pub open spec fn verified(self, whitelist_proof: Option<Vec<[u8; 32]>>) -> bool {
        &&& self.nft_metadata.mint == self.nft_mint
        &&& collection_verified(
            self.nft_metadata,
            self.battleground.collection_info,
            whitelist_proof,
        )
    }

    /// Whether the collectible's record stands in the way of an admission:
    /// it is alive, and it is not the winner of the last round.
    pub open spec fn still_in_play(self) -> bool {
        self.participant.alive && self.battleground.last_winner != Some(self.nft_mint)
    }

    /// The first rule that the admission breaks, if it breaks any, for a
    /// collectible whose verification has come out as `verified`.
    pub open spec fn rejection(self, attack: u32, defense: u32, verified: bool) -> Option<
        BattleRoyaleError,
    > {
        if self.battleground.status != BattlegroundStatus::Preparing {
            Some(BattleRoyaleError::WrongBattlegroundStatus)
        } else if attack + defense > STAT_BUDGET {
            Some(BattleRoyaleError::InvalidStatistics)
        } else if self.battleground.participants >= self.battleground.participants_cap {
            Some(BattleRoyaleError::BattlegroundFull)
        } else if !verified {
            Some(BattleRoyaleError::CollectionVerificationFailed)
        } else if self.still_in_play() {
            Some(BattleRoyaleError::ParticipantAlive)
        } else if !self.player_nft_token_account.shows_holder(self.signer, self.nft_mint) {
            Some(BattleRoyaleError::NotTokenHolder)
        } else {
            None
        }
    }

    /// The record of a collectible that has just entered with the given
    /// split of the stat budget.
    pub open spec fn entrant(self, attack: u32, defense: u32) -> ParticipantState {
        ParticipantState {
            battleground: self.battleground_key,
            nft_mint: self.nft_mint,
            attack: (attack + BASE_ATTACK) as u32,
            defense: (defense + BASE_DEFENSE) as u32,
            health_points: max_health(defense + BASE_DEFENSE) as u32,
            action_points_spent: 0,
            alive: true,
        }
    }

    /// The records as an admission leaves them: the collectible's record is
    /// that of a new entrant and the battleground counts one more.
    pub open spec fn admitted(self, attack: u32, defense: u32) -> JoinBattleground {
        JoinBattleground {
            battleground: BattlegroundState {
                participants: (self.battleground.participants + 1) as u32,
                ..self.battleground
            },
            participant: self.entrant(attack, defense),
            ..self
        }
    }

    /// What an admission leaves to be done.
    pub open spec fn admission(self, attack: u32, defense: u32) -> Admission {
        Admission {
            fee: EntryFeeSplit {
                protocol_share: protocol_share(
                    self.battleground.entry_fee as int,
                    self.battle_royale.fee as int,
                ) as u64,
                pot_share: pot_share(
                    self.battleground.entry_fee as int,
                    self.battle_royale.fee as int,
                ) as u64,
            },
            operator: self.battle_royale.game_master,
            pot_mint: self.battleground.pot_mint,
            event: JoinBattlegroundEvent {
                battleground: self.battleground_key,
                nft_mint: self.nft_mint,
                attack,
                defense,
            },
        }
    }
}

/// Admits a collectible whose verification has come out as `verified`.
///
/// The collectible is admitted where the battleground is preparing, the
/// stats fit the budget, the battleground has room, the collectible is
/// verified, its record is not still in play, and the caller holds it. A
/// rejected admission changes nothing.
pub fn register_entrant(
    ctx: &mut JoinBattleground,
    attack: u32,
    defense: u32,
    verified: bool,
) -> (result: Result<Admission, BattleRoyaleError>)
    requires
        old(ctx).wf(),
    ensures
        match result {
            Ok(admission) => {
                &&& old(ctx).rejection(attack, defense, verified) is None
                &&& *final(ctx) == old(ctx).admitted(attack, defense)
                &&& admission == old(ctx).admission(attack, defense)
            },
            Err(error) => {
                &&& old(ctx).rejection(attack, defense, verified) == Some(error)
                &&& *final(ctx) == *old(ctx)
            },
        },
        result is Ok ==> final(ctx).participant.wf(),
        old(ctx).battleground.wf() ==> final(ctx).battleground.wf(),
        final(ctx).battleground.same_terms(old(ctx).battleground),
{
    if ctx.battleground.status != BattlegroundStatus::Preparing {
        return Err(BattleRoyaleError::WrongBattlegroundStatus);
    }
    if attack > STAT_BUDGET || defense > STAT_BUDGET || attack + defense > STAT_BUDGET {
        return Err(BattleRoyaleError::InvalidStatistics);
    }
    if ctx.battleground.participants >= ctx.battleground.participants_cap {
        return Err(BattleRoyaleError::BattlegroundFull);
    }
    if !verified {
        return Err(BattleRoyaleError::CollectionVerificationFailed);
    }
    if ctx.participant.alive && ctx.battleground.last_winner != Some(ctx.nft_mint) {
        return Err(BattleRoyaleError::ParticipantAlive);
    }
    if !ctx.player_nft_token_account.proves_holder(&ctx.signer, &ctx.nft_mint) {
        return Err(BattleRoyaleError::NotTokenHolder);
    }
    ctx.participant = ParticipantState {
        battleground: ctx.battleground_key,
        nft_mint: ctx.nft_mint,
        attack: attack + BASE_ATTACK,
        defense: defense + BASE_DEFENSE,
        health_points: full_health(defense + BASE_DEFENSE),
        action_points_spent: 0,
        alive: true,
    };
    ctx.battleground.participants = ctx.battleground.participants + 1;
    let fee = split_entry_fee(ctx.battleground.entry_fee, ctx.battle_royale.fee);
    Ok(
        Admission {
            fee,
            operator: ctx.battle_royale.game_master,
            pot_mint: ctx.battleground.pot_mint,
            event: JoinBattlegroundEvent {
                battleground: ctx.battleground_key,
                nft_mint: ctx.nft_mint,
                attack,
                defense,
            },
        },
    )
}

/// Verifies the collectible against the battleground's collection and
/// admits it.
///
/// `attack` and `defense` are the shares of the stat budget that the
/// entrant puts into each; `whitelist_proof` is the path that shows the
/// collectible on the collection's whitelist, where the collection has one.
pub fn join_battleground(
    ctx: &mut JoinBattleground,
    attack: u32,
    defense: u32,
    whitelist_proof: Option<Vec<[u8; 32]>>,
) -> (result: Result<Admission, BattleRoyaleError>)
    requires
        old(ctx).wf(),
    ensures
        match result {
            Ok(admission) => {
                &&& old(ctx).rejection(attack, defense, old(ctx).verified(whitelist_proof)) is None
                &&& *final(ctx) == old(ctx).admitted(attack, defense)
                &&& admission == old(ctx).admission(attack, defense)
            },
            Err(error) => {
                &&& old(ctx).rejection(attack, defense, old(ctx).verified(whitelist_proof))
                    == Some(error)
                &&& *final(ctx) == *old(ctx)
            },
        },
        result is Ok ==> final(ctx).participant.wf(),
        old(ctx).battleground.wf() ==> final(ctx).battleground.wf(),
        final(ctx).battleground.same_terms(old(ctx).battleground),
{
    let verified = ctx.nft_metadata.mint == ctx.nft_mint && verify_collection(
        &ctx.nft_metadata,
        &ctx.battleground.collection_info,
        whitelist_proof,
    );
    register_entrant(ctx, attack, defense, verified)
}

/// Every admission leaves the entrant with the stats it declared on top of
/// the base stats, and with the full health of its defense: attack and
/// defense add up to what was declared and 150, health is 750 and five for
/// each point of defense, nothing is spent, and the record is alive and
/// well formed.
pub proof fn lemma_entrant_stats(ctx: JoinBattleground, attack: u32, defense: u32, verified: bool)
    requires
        ctx.rejection(attack, defense, verified) is None,
    ensures
        ctx.admitted(attack, defense).participant.attack == attack + 100,
        ctx.admitted(attack, defense).participant.defense == defense + 50,
        ctx.admitted(attack, defense).participant.attack + ctx.admitted(
            attack,
            defense,
        ).participant.defense == attack + defense + 150,
        ctx.admitted(attack, defense).participant.health_points == 750 + ctx.admitted(
            attack,
            defense,
        ).participant.defense * 5,
        ctx.admitted(attack, defense).participant.action_points_spent == 0,
        ctx.admitted(attack, defense).participant.alive,
        ctx.admitted(attack, defense).participant.wf(),
{
}

/// Nobody enters a battleground that is not preparing: whatever else holds,
/// the admission is rejected for the state the battleground is in.
pub proof fn lemma_no_entry_unless_preparing(
    ctx: JoinBattleground,
    attack: u32,
    defense: u32,
    verified: bool,
)
    requires
        ctx.battleground.status != BattlegroundStatus::Preparing,
    ensures
        ctx.rejection(attack, defense, verified) == Some(
            BattleRoyaleError::WrongBattlegroundStatus,
        ),
{
}

/// An admission never takes the roster beyond the capacity, and the two
/// parts of the fee it leaves owed are the whole entry fee.
pub proof fn lemma_admission_keeps_capacity_and_fee(
    ctx: JoinBattleground,
    attack: u32,
    defense: u32,
    verified: bool,
)
    requires
        ctx.wf(),
        ctx.rejection(attack, defense, verified) is None,
    ensures
        ctx.admitted(attack, defense).battleground.participants == ctx.battleground.participants
            + 1,
        ctx.admitted(attack, defense).battleground.participants
            <= ctx.battleground.participants_cap,
        ctx.admission(attack, defense).fee.protocol_share + ctx.admission(
            attack,
            defense,
        ).fee.pot_share == ctx.battleground.entry_fee,
        ctx.admission(attack, defense).fee.protocol_share == ctx.battleground.entry_fee
            * ctx.battle_royale.fee / 10000,
{
    crate::settlement::lemma_fee_split_is_exact(
        ctx.battleground.entry_fee as int,
        ctx.battle_royale.fee as int,
    );
}

/// An eliminated collectible is not kept out by its record: where every
/// other rule is met, it enters the next round like a new entrant.
pub proof fn lemma_eliminated_entrant_may_rejoin(
    ctx: JoinBattleground,
    attack: u32,
    defense: u32,
    verified: bool,
)
    requires
        !ctx.participant.alive,
        ctx.battleground.status == BattlegroundStatus::Preparing,
        attack + defense <= STAT_BUDGET,
        ctx.battleground.participants < ctx.battleground.participants_cap,
        verified,
        ctx.player_nft_token_account.shows_holder(ctx.signer, ctx.nft_mint),
    ensures
        ctx.rejection(attack, defense, verified) is None,
        ctx.admitted(attack, defense).participant == ctx.entrant(attack, defense),
{
}

/// A collectible whose record is alive cannot enter again, unless it won
/// the last round of this battleground.
pub proof fn lemma_living_entrant_cannot_rejoin(
    ctx: JoinBattleground,
    attack: u32,
    defense: u32,
    verified: bool,
)
    requires
        ctx.participant.alive,
        ctx.battleground.last_winner != Some(ctx.nft_mint),
    ensures
        ctx.rejection(attack, defense, verified) is Some,
{
}

} // verus!

//! The battle ends and the last participant alive is paid the pot.

use vstd::prelude::*;

use crate::accounts::TokenAccount;
use crate::errors::BattleRoyaleError;
use crate::events::FinishBattleEvent;
use crate::pubkey::Pubkey;
use crate::state::{
    full_health, max_health, BattlegroundState, BattlegroundStatus, ParticipantState,
};

verus! {

/// The records a settlement concerns: the battleground, the participant
/// that claims to have won, its holder with the token account that shows it
/// holds the participant's collectible, and the account that holds the pot.
#[derive(Clone, Debug, PartialEq, Eq)]
pub struct FinishBattle {
    pub winner: Pubkey,
    pub battleground_key: Pubkey,
    pub battleground: BattlegroundState,
    pub participant_key: Pubkey,
    pub participant: ParticipantState,
    pub pot_account: TokenAccount,
    pub winner_nft_token_account: TokenAccount,
}

impl FinishBattle {
    /// The claimant's record is well formed.
    pub open spec fn wf(self) -> bool {
        self.participant.wf()
    }

    /// Tests `wf`.
    pub fn is_valid(&self) -> (valid: bool)
        ensures
            valid == self.wf(),
    {
        self.participant.is_valid()
    }

    /// The first rule that the settlement breaks, if it breaks any.
    pub open spec fn rejection(self) -> Option<BattleRoyaleError> {
        if self.battleground.status != BattlegroundStatus::Ongoing {
            Some(BattleRoyaleError::WrongBattlegroundStatus)
        } else if self.battleground.participants != 1 {
            Some(BattleRoyaleError::BattleNotOver)
        } else if self.participant.battleground != self.battleground_key {
            Some(BattleRoyaleError::ParticipantNotFound)
        } else if !self.participant.alive {
            Some(BattleRoyaleError::ParticipantDead)
        } else if !self.winner_nft_token_account.shows_holder(
            self.winner,
            self.participant.nft_mint,
        ) {
            Some(BattleRoyaleError::NotTokenHolder)
        } else {
            None
        }
    }

    /// The records as a settlement leaves them: the battleground prepares
    /// its next round and remembers the winner, the winner's record is as
    /// fresh as when it entered, and the pot is empty.
    pub open spec fn settled(self) -> FinishBattle {
        FinishBattle {
            battleground: BattlegroundState {
                status: BattlegroundStatus::Preparing,
                last_winner: Some(self.participant.nft_mint),
                ..self.battleground
            },
            participant: ParticipantState {
                action_points_spent: 0,
                health_points: max_health(self.participant.defense as int) as u32,
                ..self.participant
            },
            pot_account: TokenAccount { amount: 0, ..self.pot_account },
            ..self
        }
    }

    /// What a settlement announces: the winner is owed all that the pot
    /// holds.
    pub open spec fn announcement(self) -> FinishBattleEvent {
        FinishBattleEvent {
            battleground: self.battleground_key,
            winner: self.participant_key,
            pot_mint: self.battleground.pot_mint,
            pot_amount: self.pot_account.amount,
        }
    }
}

/// Settles a battle in which one participant is left alive.
///
/// The settlement is accepted where the battle is on, the battleground
/// counts one participant, the claimant is a living participant of this
/// battleground, and the winner holds its collectible. The winner is then
/// owed all that the pot holds, and the pot is left empty. A rejected
/// settlement changes nothing.
pub fn finish_battle(ctx: &mut FinishBattle) -> (result: Result<
    FinishBattleEvent,
    BattleRoyaleError,
>)
    requires
        old(ctx).wf(),
    ensures
        match result {
            Ok(event) => {
                &&& old(ctx).rejection() is None
                &&& *final(ctx) == old(ctx).settled()
                &&& event == old(ctx).announcement()
            },
            Err(error) => {
                &&& old(ctx).rejection() == Some(error)
                &&& *final(ctx) == *old(ctx)
            },
        },
        final(ctx).wf(),
        old(ctx).battleground.wf() ==> final(ctx).battleground.wf(),
        final(ctx).battleground.same_terms(old(ctx).battleground),
        final(ctx).participant.same_entrant(old(ctx).participant),
{
    if ctx.battleground.status != BattlegroundStatus::Ongoing {
        return Err(BattleRoyaleError::WrongBattlegroundStatus);
    }
    if ctx.battleground.participants != 1 {
        return Err(BattleRoyaleError::BattleNotOver);
    }
    if ctx.participant.battleground != ctx.battleground_key {
        return Err(BattleRoyaleError::ParticipantNotFound);
    }
    if !ctx.participant.alive {
        return Err(BattleRoyaleError::ParticipantDead);
    }
    if !ctx.winner_nft_token_account.proves_holder(&ctx.winner, &ctx.participant.nft_mint) {
        return Err(BattleRoyaleError::NotTokenHolder);
    }
    ctx.battleground.status = BattlegroundStatus::Preparing;
    ctx.battleground.last_winner = Some(ctx.participant.nft_mint);
    ctx.participant.action_points_spent = 0;
    ctx.participant.health_points = full_health(ctx.participant.defense);
    let pot_amount: u64 = ctx.pot_account.amount;
    ctx.pot_account.amount = 0;
    Ok(
        FinishBattleEvent {
            battleground: ctx.battleground_key,
            winner: ctx.participant_key,
            pot_mint: ctx.battleground.pot_mint,
            pot_amount,
        },
    )
}

/// A settlement takes a battle that is on back to preparing: it is
/// rejected for the state of the battleground wherever the battle is not
/// on, and where it is accepted the battleground prepares again, counts the
/// one survivor, remembers it as the winner, and the winner is owed the
/// whole pot with its record fresh.
pub proof fn lemma_settlement_reopens_battleground(ctx: FinishBattle)
    requires
        ctx.wf(),
    ensures
        ctx.battleground.status != BattlegroundStatus::Ongoing ==> ctx.rejection() == Some(
            BattleRoyaleError::WrongBattlegroundStatus,
        ),
        ctx.rejection() is None ==> {
            &&& ctx.settled().battleground.status == BattlegroundStatus::Preparing
            &&& ctx.settled().battleground.participants == 1
            &&& ctx.settled().battleground.last_winner == Some(ctx.participant.nft_mint)
            &&& ctx.settled().participant.alive
            &&& ctx.settled().participant.action_points_spent == 0
            &&& ctx.settled().participant.health_points == max_health(
                ctx.participant.defense as int,
            )
            &&& ctx.announcement().pot_amount == ctx.pot_account.amount
            &&& ctx.settled().pot_account.amount == 0
        },
{
}

} // verus!

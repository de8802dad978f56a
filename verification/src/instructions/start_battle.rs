//! A full battleground begins its battle.

use vstd::prelude::*;

use crate::accounts::Clock;
use crate::errors::BattleRoyaleError;
use crate::events::StartBattleEvent;
use crate::points::{lemma_points_accrued_zero_at_start, points_accrued};
use crate::pubkey::Pubkey;
use crate::state::{BattlegroundState, BattlegroundStatus};

verus! {

/// The records a start concerns: the battleground and the clock.
#[derive(Clone, Debug, PartialEq, Eq)]
pub struct StartBattle {
    pub battleground_key: Pubkey,
    pub battleground: BattlegroundState,
    pub clock: Clock,
}

impl StartBattle {
    /// The first rule that the start breaks, if it breaks any.
    pub open spec fn rejection(self) -> Option<BattleRoyaleError> {
        if self.battleground.status != BattlegroundStatus::Preparing {
            Some(BattleRoyaleError::WrongBattlegroundStatus)
        } else if self.battleground.participants != self.battleground.participants_cap {
            Some(BattleRoyaleError::BattlegroundNotFull)
        } else {
            None
        }
    }

    /// The records as a start leaves them: the battle is on, and began now.
    pub open spec fn started(self) -> StartBattle {
        StartBattle {
            battleground: BattlegroundState {
                status: BattlegroundStatus::Ongoing,
                start_time: self.clock.unix_timestamp,
                ..self.battleground
            },
            ..self
        }
    }
}

/// Starts the battle of a battleground that is preparing and full. From
/// now on action points accrue. A rejected start changes nothing.
pub fn start_battle(ctx: &mut StartBattle) -> (result: Result<StartBattleEvent, BattleRoyaleError>)
    ensures
        match result {
            Ok(event) => {
                &&& old(ctx).rejection() is None
                &&& *final(ctx) == old(ctx).started()
                &&& event == (StartBattleEvent { battleground: old(ctx).battleground_key })
            },
            Err(error) => {
                &&& old(ctx).rejection() == Some(error)
                &&& *final(ctx) == *old(ctx)
            },
        },
        old(ctx).battleground.wf() ==> final(ctx).battleground.wf(),
        final(ctx).battleground.same_terms(old(ctx).battleground),
{
    if ctx.battleground.status != BattlegroundStatus::Preparing {
        return Err(BattleRoyaleError::WrongBattlegroundStatus);
    }
    if ctx.battleground.participants != ctx.battleground.participants_cap {
        return Err(BattleRoyaleError::BattlegroundNotFull);
    }
    ctx.battleground.status = BattlegroundStatus::Ongoing;
    ctx.battleground.start_time = ctx.clock.unix_timestamp;
    Ok(StartBattleEvent { battleground: ctx.battleground_key })
}

/// A battle starts only in a battleground that is preparing and full, and
/// starts now: the battle is then on, the roster is as it was, and nobody
/// has any points yet.
pub proof fn lemma_battle_starts_full_and_without_points(ctx: StartBattle)
    requires
        ctx.rejection() is None,
    ensures
        ctx.battleground.status == BattlegroundStatus::Preparing,
        ctx.battleground.participants == ctx.battleground.participants_cap,
        ctx.started().battleground.status == BattlegroundStatus::Ongoing,
        ctx.started().battleground.participants == ctx.battleground.participants,
        ctx.started().battleground.start_time == ctx.clock.unix_timestamp,
        points_accrued(
            ctx.started().battleground.start_time as int,
            ctx.clock.unix_timestamp as int,
            ctx.battleground.action_points_per_day as int,
        ) == 0,
{
    lemma_points_accrued_zero_at_start(
        ctx.clock.unix_timestamp as int,
        ctx.battleground.action_points_per_day as int,
    );
}

} // verus!

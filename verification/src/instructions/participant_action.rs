//! A participant attacks or heals another.

use vstd::prelude::*;

use crate::accounts::{Clock, TokenAccount};
use crate::combat::{
    attack_kills, attack_points_spent, health_after_attack, health_after_heal, heal_points_spent,
    resolve_attack, resolve_heal,
};
use crate::points::{
    can_spend, checked_action_points_available, lemma_points_accrued_monotonic,
    lemma_points_accrued_zero_at_start, points_accrued,
};
use crate::errors::BattleRoyaleError;
use crate::events::ParticipantActionEvent;
use crate::pubkey::Pubkey;
use crate::state::{
    max_health, ActionType, BattlegroundState, BattlegroundStatus, ParticipantState,
};

verus! {

/// The records an action concerns: the battleground, the acting participant
/// and its target, the caller with the token account that shows it holds
/// the actor's collectible, and the clock.
#[derive(Clone, Debug, PartialEq, Eq)]
pub struct ParticipantAction {
    pub signer: Pubkey,
    pub battleground_key: Pubkey,
    pub battleground_state: BattlegroundState,
    pub participant_key: Pubkey,
    pub participant_state: ParticipantState,
    pub target_participant_state: ParticipantState,
    pub player_nft_token_account: TokenAccount,
    pub clock: Clock,
}

impl ParticipantAction {
    /// Action points the battle has granted each participant by now.
    pub open spec fn accrued(self) -> int {
        points_accrued(
            self.battleground_state.start_time as int,
            self.clock.unix_timestamp as int,
            self.battleground_state.action_points_per_day as int,
        )
    }

    /// Action points the actor has left to spend.
    pub open spec fn budget(self) -> int {
        self.accrued() - self.participant_state.action_points_spent
    }

    /// Whether actor and target are two living participants of this
    /// battleground in battle.
    pub open spec fn opponents_alive(self) -> bool {
        &&& self.battleground_state.status == BattlegroundStatus::Ongoing
        &&& self.participant_state.battleground == self.battleground_key
        &&& self.target_participant_state.battleground == self.battleground_key
        &&& self.participant_state.alive
        &&& self.target_participant_state.alive
        &&& self.participant_state.nft_mint != self.target_participant_state.nft_mint
    }

    /// Both participants' records are well formed, and the battleground
    /// counts the living: where actor and target are two of them, it counts
    /// at least two.
    pub open spec fn wf(self) -> bool {
        &&& self.participant_state.wf()
        &&& self.target_participant_state.wf()
        &&& self.opponents_alive() ==> self.battleground_state.participants >= 2
    }

    /// Tests `wf`.
    pub fn is_valid(&self) -> (valid: bool)
        ensures
            valid == self.wf(),
    {
        let opponents_alive = self.battleground_state.status == BattlegroundStatus::Ongoing
            && self.participant_state.battleground == self.battleground_key
            && self.target_participant_state.battleground == self.battleground_key
            && self.participant_state.alive && self.target_participant_state.alive
            && self.participant_state.nft_mint != self.target_participant_state.nft_mint;
        self.participant_state.is_valid() && self.target_participant_state.is_valid() && (
        !opponents_alive || self.battleground_state.participants >= 2)
    }

    /// Tests whether the points accrued by now fit in 32 bits.
    pub fn points_fit(&self) -> (fit: bool)
        ensures
            fit == (self.accrued() <= u32::MAX),
    {
        let start: i64 = self.battleground_state.start_time;
        let now: i64 = self.clock.unix_timestamp;
        if now < start {
            proof {
                lemma_no_points_before_start(
                    start as int,
                    now as int,
                    self.battleground_state.action_points_per_day as int,
                );
            }
            true
        } else {
            checked_action_points_available(
                start,
                now,
                self.battleground_state.action_points_per_day,
            ).is_some()
        }
    }

    /// The first rule that an action of `action_points` points breaks, if
    /// it breaks any.
    pub open spec fn rejection(self, action_points: u32) -> Option<BattleRoyaleError> {
        if self.battleground_state.status != BattlegroundStatus::Ongoing {
            Some(BattleRoyaleError::WrongBattlegroundStatus)
        } else if self.participant_state.battleground != self.battleground_key
            || self.target_participant_state.battleground != self.battleground_key {
            Some(BattleRoyaleError::ParticipantNotFound)
        } else if !self.participant_state.alive {
            Some(BattleRoyaleError::ParticipantDead)
        } else if !self.target_participant_state.alive {
            Some(BattleRoyaleError::TargetDead)
        } else if self.target_participant_state.nft_mint == self.participant_state.nft_mint {
            Some(BattleRoyaleError::InvalidTarget)
        } else if !self.player_nft_token_account.shows_holder(
            self.signer,
            self.participant_state.nft_mint,
        ) {
            Some(BattleRoyaleError::NotTokenHolder)
        } else if action_points == 0 {
            Some(BattleRoyaleError::InvalidParameter)
        } else if !can_spend(
            self.battleground_state.start_time as int,
            self.clock.unix_timestamp as int,
            self.battleground_state.action_points_per_day as int,
            self.participant_state.action_points_spent as int,
            action_points as int,
        ) {
            Some(BattleRoyaleError::InsufficientActionPoints)
        } else {
            None
        }
    }

    /// Points the action consumes.
    pub open spec fn points_spent(self, action_type: ActionType, action_points: u32) -> int {
        match action_type {
            ActionType::Attack => attack_points_spent(
                self.participant_state.attack as int,
                self.target_participant_state.health_points as int,
                action_points as int,
            ),
            ActionType::Heal => heal_points_spent(
                self.participant_state.defense as int,
                self.target_participant_state.defense as int,
                self.target_participant_state.health_points as int,
                action_points as int,
                self.budget(),
            ),
        }
    }

    /// Whether the action eliminates the target.
    pub open spec fn kills(self, action_type: ActionType, action_points: u32) -> bool {
        action_type == ActionType::Attack && attack_kills(
            self.participant_state.attack as int,
            self.target_participant_state.health_points as int,
            action_points as int,
        )
    }

    /// Health the target has after the action.
    pub open spec fn target_health(self, action_type: ActionType, action_points: u32) -> int {
        match action_type {
            ActionType::Attack => health_after_attack(
                self.participant_state.attack as int,
                self.target_participant_state.health_points as int,
                action_points as int,
            ),
            ActionType::Heal => health_after_heal(
                self.participant_state.defense as int,
                self.target_participant_state.defense as int,
                self.target_participant_state.health_points as int,
                action_points as int,
                self.budget(),
            ),
        }
    }

    /// The records as an accepted action leaves them: the actor has spent
    /// the points consumed, the target has its new health, and where it was
    /// eliminated it is dead and the battleground counts one fewer.
    pub open spec fn applied(
        self,
        action_type: ActionType,
        action_points: u32,
    ) -> ParticipantAction {
        ParticipantAction {
            battleground_state: BattlegroundState {
                participants: if self.kills(action_type, action_points) {
                    (self.battleground_state.participants - 1) as u32
                } else {
                    self.battleground_state.participants
                },
                ..self.battleground_state
            },
            participant_state: ParticipantState {
                action_points_spent: (self.participant_state.action_points_spent
                    + self.points_spent(action_type, action_points)) as u32,
                ..self.participant_state
            },
            target_participant_state: ParticipantState {
                health_points: self.target_health(action_type, action_points) as u32,
                alive: !self.kills(action_type, action_points),
                ..self.target_participant_state
            },
            ..self
        }
    }

    /// What an accepted action announces.
    pub open spec fn announcement(
        self,
        action_type: ActionType,
        action_points: u32,
    ) -> ParticipantActionEvent {
        ParticipantActionEvent {
            battleground: self.battleground_key,
            participant: self.participant_key,
            action_type,
            action_points_spent: self.points_spent(action_type, action_points) as u32,
        }
    }
}

/// Applies an action of the acting participant on its target.
///
/// The action is accepted where the battle is on, both participants are
/// alive in this battleground and distinct, the caller holds the actor's
/// collectible, and the actor can spend the points it asks for. An accepted
/// action consumes only the points it needs. A rejected action changes
/// nothing.
pub fn participant_action(
    ctx: &mut ParticipantAction,
    action_type: ActionType,
    action_points: u32,
) -> (result: Result<ParticipantActionEvent, BattleRoyaleError>)
    requires
        old(ctx).wf(),
        old(ctx).accrued() <= u32::MAX,
    ensures
        match result {
            Ok(event) => {
                &&& old(ctx).rejection(action_points) is None
                &&& *final(ctx) == old(ctx).applied(action_type, action_points)
                &&& event == old(ctx).announcement(action_type, action_points)
            },
            Err(error) => {
                &&& old(ctx).rejection(action_points) == Some(error)
                &&& *final(ctx) == *old(ctx)
            },
        },
        final(ctx).wf(),
        old(ctx).battleground_state.wf() ==> final(ctx).battleground_state.wf(),
        final(ctx).battleground_state.same_terms(old(ctx).battleground_state),
        final(ctx).participant_state.same_entrant(old(ctx).participant_state),
        final(ctx).target_participant_state.same_entrant(old(ctx).target_participant_state),
{
    if ctx.battleground_state.status != BattlegroundStatus::Ongoing {
        return Err(BattleRoyaleError::WrongBattlegroundStatus);
    }
    if ctx.participant_state.battleground != ctx.battleground_key
        || ctx.target_participant_state.battleground != ctx.battleground_key {
        return Err(BattleRoyaleError::ParticipantNotFound);
    }
    if !ctx.participant_state.alive {
        return Err(BattleRoyaleError::ParticipantDead);
    }
    if !ctx.target_participant_state.alive {
        return Err(BattleRoyaleError::TargetDead);
    }
    if ctx.target_participant_state.nft_mint == ctx.participant_state.nft_mint {
        return Err(BattleRoyaleError::InvalidTarget);
    }
    if !ctx.player_nft_token_account.proves_holder(&ctx.signer, &ctx.participant_state.nft_mint) {
        return Err(BattleRoyaleError::NotTokenHolder);
    }
    if action_points == 0 {
        return Err(BattleRoyaleError::InvalidParameter);
    }
    let available: u32 = match checked_action_points_available(
        ctx.battleground_state.start_time,
        ctx.clock.unix_timestamp,
        ctx.battleground_state.action_points_per_day,
    ) {
        Some(points) => points,
        None => {
            proof {
                lemma_no_points_before_start(
                    ctx.battleground_state.start_time as int,
                    ctx.clock.unix_timestamp as int,
                    ctx.battleground_state.action_points_per_day as int,
                );
            }
            return Err(BattleRoyaleError::InsufficientActionPoints);
        },
    };
    let spent_before: u32 = ctx.participant_state.action_points_spent;
    if available < spent_before || available - spent_before < action_points {
        return Err(BattleRoyaleError::InsufficientActionPoints);
    }
    let budget: u32 = available - spent_before;
    let spent_points: u32;
    match action_type {
        ActionType::Attack => {
            let outcome = resolve_attack(
                ctx.participant_state.attack,
                ctx.target_participant_state.health_points,
                action_points,
            );
            spent_points = outcome.points_spent;
            ctx.target_participant_state.health_points = outcome.target_health;
            if outcome.target_killed {
                ctx.target_participant_state.alive = false;
                ctx.battleground_state.participants = ctx.battleground_state.participants - 1;
            }
        },
        ActionType::Heal => {
            let outcome = resolve_heal(
                ctx.participant_state.defense,
                ctx.target_participant_state.defense,
                ctx.target_participant_state.health_points,
                action_points,
                budget,
            );
            spent_points = outcome.points_spent;
            ctx.target_participant_state.health_points = outcome.target_health;
        },
    }
    ctx.participant_state.action_points_spent = spent_before + spent_points;
    Ok(
        ParticipantActionEvent {
            battleground: ctx.battleground_key,
            participant: ctx.participant_key,
            action_type,
            action_points_spent: spent_points,
        },
    )
}

/// Before the battle has started no points have accrued.
pub proof fn lemma_no_points_before_start(start: int, now: int, action_points_per_day: int)
    requires
        now < start,
        0 <= action_points_per_day,
    ensures
        points_accrued(start, now, action_points_per_day) <= 0,
{
    lemma_points_accrued_monotonic(start, now, start, action_points_per_day);
    lemma_points_accrued_zero_at_start(start, action_points_per_day);
}

/// Nobody acts in a battleground whose battle is not on: whatever else
/// holds, the action is rejected for the state the battleground is in.
pub proof fn lemma_no_action_unless_ongoing(ctx: ParticipantAction, action_points: u32)
    requires
        ctx.battleground_state.status != BattlegroundStatus::Ongoing,
    ensures
        ctx.rejection(action_points) == Some(BattleRoyaleError::WrongBattlegroundStatus),
{
}

/// An eliminated participant neither acts nor is acted upon: every action
/// by it or on it is rejected, and so leaves it eliminated.
pub proof fn lemma_dead_participant_takes_no_part(ctx: ParticipantAction, action_points: u32)
    requires
        !ctx.participant_state.alive || !ctx.target_participant_state.alive,
    ensures
        ctx.rejection(action_points) is Some,
{
}

/// An accepted action consumes at least nothing, at most what was
/// requested, and never takes the actor's spending beyond what has
/// accrued. An attack consumes no more than brings the target to zero, and
/// eliminates it exactly where its health reaches zero. A heal leaves the
/// target with no more than the full health of its defense, and no less
/// than it had.
pub proof fn lemma_accepted_action_is_bounded(
    ctx: ParticipantAction,
    action_type: ActionType,
    action_points: u32,
)
    requires
        ctx.wf(),
        ctx.rejection(action_points) is None,
    ensures
        0 <= ctx.points_spent(action_type, action_points) <= action_points,
        ctx.participant_state.action_points_spent + ctx.points_spent(action_type, action_points)
            <= ctx.accrued(),
        action_type == ActionType::Attack ==> {
            &&& ctx.points_spent(action_type, action_points) <= crate::combat::points_to_cover(
                ctx.target_participant_state.health_points as int,
                ctx.participant_state.attack as int,
            )
            &&& ctx.target_health(action_type, action_points)
                <= ctx.target_participant_state.health_points
            &&& ctx.kills(action_type, action_points) <==> ctx.target_health(
                action_type,
                action_points,
            ) == 0
        },
        action_type == ActionType::Heal ==> {
            &&& !ctx.kills(action_type, action_points)
            &&& ctx.target_participant_state.health_points <= ctx.target_health(
                action_type,
                action_points,
            ) <= max_health(ctx.target_participant_state.defense as int)
        },
{
    match action_type {
        ActionType::Attack => {
            crate::combat::lemma_attack_needs_every_point(
                ctx.participant_state.attack as int,
                ctx.target_participant_state.health_points as int,
                action_points as int,
            );
        },
        ActionType::Heal => {
            crate::combat::lemma_heal_is_bounded(
                ctx.participant_state.defense as int,
                ctx.target_participant_state.defense as int,
                ctx.target_participant_state.health_points as int,
                action_points as int,
                ctx.budget(),
            );
        },
    }
}

} // verus!

//! The arithmetic of an attack and of a heal.
//!
//! An action never consumes more points than it needs: an attack stops at
//! the blow that brings the target to zero, a heal at the point that fills
//! the target up. Whatever the actor asked for beyond that stays unspent.

use vstd::arithmetic::div_mod::{lemma_fundamental_div_mod, lemma_fundamental_div_mod_converse};
use vstd::arithmetic::mul::{lemma_mul_inequality, lemma_mul_is_commutative};
use vstd::prelude::*;

use crate::state::max_health;

verus! {

/// The smaller of two integers.
pub open spec fn least(a: int, b: int) -> int {
    if a <= b {
        a
    } else {
        b
    }
}

/// The fewest points that cover `amount` when each point covers
/// `per_point`: the quotient of the two, rounded up.
pub open spec fn points_to_cover(amount: int, per_point: int) -> int
    recommends
        0 <= amount,
        0 < per_point,
{
    (amount + per_point - 1) / per_point
}

/// `points_to_cover` is the least number of points that covers the amount:
/// the quotient where the amount is a multiple of what a point covers, and
/// one more where it is not.
pub proof fn lemma_points_to_cover_is_least(amount: int, per_point: int)
    requires
        0 <= amount,
        0 < per_point,
    ensures
        0 <= points_to_cover(amount, per_point) <= amount,
        points_to_cover(amount, per_point) * per_point >= amount,
        (points_to_cover(amount, per_point) - 1) * per_point < amount,
        forall|n: int|
            0 <= n && #[trigger] (n * per_point) >= amount ==> points_to_cover(amount, per_point)
                <= n,
        points_to_cover(amount, per_point) == if amount % per_point == 0 {
            amount / per_point
        } else {
            amount / per_point + 1
        },
{
    let q = amount / per_point;
    let r = amount % per_point;
    lemma_fundamental_div_mod(amount, per_point);
    lemma_mul_is_commutative(per_point, q);
    assert(0 <= q) by (nonlinear_arith)
        requires
            amount == q * per_point + r,
            0 <= amount,
            0 <= r < per_point,
    ;
    if r == 0 {
        lemma_fundamental_div_mod_converse(amount + per_point - 1, per_point, q, per_point - 1);
    } else {
        assert((q + 1) * per_point == q * per_point + per_point) by (nonlinear_arith);
        lemma_fundamental_div_mod_converse(amount + per_point - 1, per_point, q + 1, r - 1);
    }
    let n = points_to_cover(amount, per_point);
    assert(n * per_point >= amount && (n - 1) * per_point < amount) by (nonlinear_arith)
        requires
            amount == q * per_point + r,
            0 <= r < per_point,
            n == if r == 0 {
                q
            } else {
                q + 1
            },
    ;
    assert(n <= amount) by (nonlinear_arith)
        requires
            (n - 1) * per_point < amount,
            0 < per_point,
            0 <= amount,
            0 <= n,
    ;
    assert forall|m: int| 0 <= m && #[trigger] (m * per_point) >= amount implies n <= m by {
        if m < n {
            lemma_mul_inequality(m, n - 1, per_point);
        }
    }
}

/// Computes `points_to_cover`.
pub fn points_needed(amount: u32, per_point: u32) -> (points: u32)
    requires
        per_point > 0,
    ensures
        points == points_to_cover(amount as int, per_point as int),
{
    proof {
        lemma_points_to_cover_is_least(amount as int, per_point as int);
    }
    if amount % per_point == 0 {
        amount / per_point
    } else {
        amount / per_point + 1
    }
}

/// Points an attack consumes: what was requested, or what brings the
/// target's health to zero, whichever is less.
pub open spec fn attack_points_spent(attack: int, target_health: int, requested: int) -> int {
    least(requested, points_to_cover(target_health, attack))
}

/// Damage an attack deals: the actor's attack for each point consumed.
pub open spec fn attack_damage(attack: int, target_health: int, requested: int) -> int {
    attack * attack_points_spent(attack, target_health, requested)
}

/// Whether an attack eliminates its target: the damage reaches its health.
pub open spec fn attack_kills(attack: int, target_health: int, requested: int) -> bool {
    attack_damage(attack, target_health, requested) >= target_health
}

/// Health the target is left with after an attack.
pub open spec fn health_after_attack(attack: int, target_health: int, requested: int) -> int {
    if attack_kills(attack, target_health, requested) {
        0
    } else {
        target_health - attack_damage(attack, target_health, requested)
    }
}

/// What an attack did.
#[derive(Clone, Copy, Debug, PartialEq, Eq)]
pub struct AttackOutcome {
    /// Points taken from the actor's budget.
    pub points_spent: u32,
    /// Health the target is left with.
    pub target_health: u32,
    /// Whether the target was eliminated.
    pub target_killed: bool,
}

/// Resolves an attack of `requested` points by an actor with the given
/// attack on a target with the given health.
pub fn resolve_attack(attack: u32, target_health: u32, requested: u32) -> (outcome: AttackOutcome)
    requires
        attack > 0,
    ensures
        outcome.points_spent == attack_points_spent(
            attack as int,
            target_health as int,
            requested as int,
        ),
        outcome.target_health == health_after_attack(
            attack as int,
            target_health as int,
            requested as int,
        ),
        outcome.target_killed == attack_kills(
            attack as int,
            target_health as int,
            requested as int,
        ),
        outcome.points_spent <= requested,
        outcome.target_health <= target_health,
{
    let needed: u32 = points_needed(target_health, attack);
    let spent: u32 = if needed > requested {
        requested
    } else {
        needed
    };
    proof {
        lemma_points_to_cover_is_least(target_health as int, attack as int);
        lemma_mul_inequality(spent as int, needed as int, attack as int);
        lemma_mul_is_commutative(attack as int, spent as int);
        lemma_mul_is_commutative(attack as int, needed as int);
        assert(attack * needed < target_health + attack) by (nonlinear_arith)
            requires
                (needed - 1) * attack < target_health,
        ;
    }
    let damage: u64 = (attack as u64) * (spent as u64);
    if damage >= target_health as u64 {
        AttackOutcome { points_spent: spent, target_health: 0, target_killed: true }
    } else {
        AttackOutcome {
            points_spent: spent,
            target_health: target_health - (damage as u32),
            target_killed: false,
        }
    }
}

/// An attack never consumes more points than were requested, nor more than
/// it takes to bring the target's health to zero.
pub proof fn lemma_attack_spends_no_more_than_needed(
    attack: int,
    target_health: int,
    requested: int,
)
    ensures
        attack_points_spent(attack, target_health, requested) <= requested,
        attack_points_spent(attack, target_health, requested) <= points_to_cover(
            target_health,
            attack,
        ),
{
}

/// Every point an attack consumes is needed: with one point less, the
/// target would have health left. The target is eliminated exactly when
/// the points requested reach what it takes to bring it to zero, and is
/// otherwise left with what the damage has not taken.
pub proof fn lemma_attack_needs_every_point(attack: int, target_health: int, requested: int)
    requires
        0 < attack,
        0 <= target_health,
        0 <= requested,
    ensures
        0 <= attack_points_spent(attack, target_health, requested),
        attack_points_spent(attack, target_health, requested) > 0 ==> attack * (
        attack_points_spent(attack, target_health, requested) - 1) < target_health,
        attack_kills(attack, target_health, requested) <==> requested >= points_to_cover(
            target_health,
            attack,
        ),
        0 <= health_after_attack(attack, target_health, requested) <= target_health,
        attack_kills(attack, target_health, requested) <==> health_after_attack(
            attack,
            target_health,
            requested,
        ) == 0,
{
    lemma_points_to_cover_is_least(target_health, attack);
    let needed = points_to_cover(target_health, attack);
    let spent = attack_points_spent(attack, target_health, requested);
    lemma_mul_is_commutative(attack, spent);
    lemma_mul_is_commutative(attack, spent - 1);
    lemma_mul_is_commutative(attack, needed);
    if spent > 0 {
        lemma_mul_inequality(spent - 1, needed - 1, attack);
    }
    if requested < needed {
        assert(spent == requested);
        assert(!(spent * attack >= target_health));
    }
    assert(0 <= attack * spent) by (nonlinear_arith)
        requires
            0 < attack,
            0 <= spent,
    ;
}

/// Health that one point of healing restores: half the healer's defense,
/// rounded down.
pub open spec fn heal_per_point(actor_defense: int) -> int {
    actor_defense / 2
}

/// Points it takes to fill the target up. A healer whose points restore
/// nothing never fills anyone up: it needs all the budget it has.
pub open spec fn heal_points_needed(missing: int, per_point: int, budget: int) -> int {
    if per_point == 0 {
        budget
    } else {
        points_to_cover(missing, per_point)
    }
}

/// Points a heal consumes: what was requested, or what fills the target
/// up, whichever is less.
pub open spec fn heal_points_spent(
    actor_defense: int,
    target_defense: int,
    target_health: int,
    requested: int,
    budget: int,
) -> int {
    least(
        requested,
        heal_points_needed(
            max_health(target_defense) - target_health,
            heal_per_point(actor_defense),
            budget,
        ),
    )
}

/// Health the target has after a heal: what the points consumed restore,
/// up to the most the target's defense allows.
pub open spec fn health_after_heal(
    actor_defense: int,
    target_defense: int,
    target_health: int,
    requested: int,
    budget: int,
) -> int {
    least(
        max_health(target_defense),
        target_health + heal_points_spent(
            actor_defense,
            target_defense,
            target_health,
            requested,
            budget,
        ) * heal_per_point(actor_defense),
    )
}

/// What a heal did.
#[derive(Clone, Copy, Debug, PartialEq, Eq)]
pub struct HealOutcome {
    /// Points taken from the actor's budget.
    pub points_spent: u32,
    /// Health the target has afterwards.
    pub target_health: u32,
}

/// Resolves a heal of `requested` points by an actor with the given defense
/// on a target with the given defense and health. `budget` is what the
/// actor has left to spend.
pub fn resolve_heal(
    actor_defense: u32,
    target_defense: u32,
    target_health: u32,
    requested: u32,
    budget: u32,
) -> (outcome: HealOutcome)
    requires
        target_health <= max_health(target_defense as int) <= u32::MAX,
    ensures
        outcome.points_spent == heal_points_spent(
            actor_defense as int,
            target_defense as int,
            target_health as int,
            requested as int,
            budget as int,
        ),
        outcome.target_health == health_after_heal(
            actor_defense as int,
            target_defense as int,
            target_health as int,
            requested as int,
            budget as int,
        ),
        outcome.points_spent <= requested,
        target_health <= outcome.target_health <= max_health(target_defense as int),
{
    let most: u32 = crate::state::full_health(target_defense);
    let missing: u32 = most - target_health;
    let per_point: u32 = actor_defense / 2;
    let needed: u32 = if per_point == 0 {
        budget
    } else {
        points_needed(missing, per_point)
    };
    let spent: u32 = if needed > requested {
        requested
    } else {
        needed
    };
    proof {
        if per_point > 0 {
            lemma_points_to_cover_is_least(missing as int, per_point as int);
            lemma_mul_inequality(spent as int, needed as int, per_point as int);
            assert(needed * per_point < missing + per_point) by (nonlinear_arith)
                requires
                    (needed - 1) * per_point < missing,
            ;
        } else {
            assert(spent * per_point == 0) by (nonlinear_arith)
                requires
                    per_point == 0,
            ;
        }
    }
    let restored: u64 = (spent as u64) * (per_point as u64);
    let healed: u64 = target_health as u64 + restored;
    if healed > most as u64 {
        HealOutcome { points_spent: spent, target_health: most }
    } else {
        HealOutcome { points_spent: spent, target_health: healed as u32 }
    }
}

/// A heal never leaves the target with more than the full health of its
/// defense, whoever heals and whatever is asked for.
pub proof fn lemma_heal_never_exceeds_full_health(
    actor_defense: int,
    target_defense: int,
    target_health: int,
    requested: int,
    budget: int,
)
    ensures
        health_after_heal(actor_defense, target_defense, target_health, requested, budget)
            <= max_health(target_defense),
{
}

/// A heal consumes at least nothing and at most what was requested, and
/// never lowers the target's health.
pub proof fn lemma_heal_is_bounded(
    actor_defense: int,
    target_defense: int,
    target_health: int,
    requested: int,
    budget: int,
)
    requires
        0 <= actor_defense,
        0 <= target_health <= max_health(target_defense),
        0 <= requested,
        0 <= budget,
    ensures
        0 <= heal_points_spent(actor_defense, target_defense, target_health, requested, budget)
            <= requested,
        target_health <= health_after_heal(
            actor_defense,
            target_defense,
            target_health,
            requested,
            budget,
        ),
{
    let per_point = heal_per_point(actor_defense);
    let missing = max_health(target_defense) - target_health;
    let spent = heal_points_spent(actor_defense, target_defense, target_health, requested, budget);
    if per_point > 0 {
        lemma_points_to_cover_is_least(missing, per_point);
    }
    assert(0 <= spent * per_point) by (nonlinear_arith)
        requires
            0 <= spent,
            0 <= per_point,
    ;
}

} // verus!

//! The action-point clock.
//!
//! From the moment its battle starts, a battleground grants every entrant
//! the same points: its daily grant for each day elapsed, in proportion and
//! rounded down. What an entrant has not yet spent of them it may spend.

use vstd::arithmetic::div_mod::{lemma_div_is_ordered, lemma_fundamental_div_mod_converse};
use vstd::arithmetic::mul::{lemma_mul_inequality, lemma_mul_is_commutative};
use vstd::prelude::*;

verus! {

/// Seconds over which a battleground grants its daily action points.
pub const SECONDS_PER_DAY: u32 = 86400;

/// Action points a battle that started at `start` has granted each entrant
/// by `now`: the daily grant for the time elapsed, rounded down.
pub open spec fn points_accrued(start: int, now: int, action_points_per_day: int) -> int {
    action_points_per_day * (now - start) / (SECONDS_PER_DAY as int)
}

/// Whether an entrant that has spent `spent` points can spend `requested`
/// more at `now`.
pub open spec fn can_spend(
    start: int,
    now: int,
    action_points_per_day: int,
    spent: int,
    requested: int,
) -> bool {
    requested <= points_accrued(start, now, action_points_per_day) - spent
}

/// Points never go away with time: later, at least as many have accrued.
pub proof fn lemma_points_accrued_monotonic(
    start: int,
    earlier: int,
    later: int,
    action_points_per_day: int,
)
    requires
        earlier <= later,
        0 <= action_points_per_day,
    ensures
        points_accrued(start, earlier, action_points_per_day) <= points_accrued(
            start,
            later,
            action_points_per_day,
        ),
{
    lemma_mul_inequality(earlier - start, later - start, action_points_per_day);
    lemma_mul_is_commutative(action_points_per_day, earlier - start);
    lemma_mul_is_commutative(action_points_per_day, later - start);
    lemma_div_is_ordered(
        action_points_per_day * (earlier - start),
        action_points_per_day * (later - start),
        SECONDS_PER_DAY as int,
    );
}

/// At the moment the battle starts nobody has any points.
pub proof fn lemma_points_accrued_zero_at_start(start: int, action_points_per_day: int)
    ensures
        points_accrued(start, start, action_points_per_day) == 0,
{
    assert(action_points_per_day * (start - start) == 0) by (nonlinear_arith);
}

/// After each whole day every entrant has been granted the daily points
/// once more.
pub proof fn lemma_points_accrued_per_day(start: int, days: int, action_points_per_day: int)
    ensures
        points_accrued(start, start + days * SECONDS_PER_DAY, action_points_per_day)
            == action_points_per_day * days,
{
    let elapsed = start + days * SECONDS_PER_DAY - start;
    assert(action_points_per_day * elapsed == (action_points_per_day * days) * 86400)
        by (nonlinear_arith)
        requires
            elapsed == days * 86400,
    ;
    lemma_fundamental_div_mod_converse(
        action_points_per_day * elapsed,
        86400,
        action_points_per_day * days,
        0,
    );
}

/// Action points granted by `now` in a battle that started at `start`, in
/// a width that holds them whatever the daily grant and the time elapsed.
fn points_granted(start: i64, now: i64, action_points_per_day: u32) -> (points: u128)
    requires
        start <= now,
    ensures
        points == points_accrued(start as int, now as int, action_points_per_day as int),
{
    let seconds_elapsed: u128 = (now as i128 - start as i128) as u128;
    assert(action_points_per_day * seconds_elapsed <= 0xffff_ffff * 0xffff_ffff_ffff_ffff)
        by (nonlinear_arith)
        requires
            0 <= action_points_per_day <= 0xffff_ffff,
            0 <= seconds_elapsed <= 0xffff_ffff_ffff_ffff,
    ;
    (action_points_per_day as u128) * seconds_elapsed / (SECONDS_PER_DAY as u128)
}

/// Action points granted by `now` in a battle that started at `start`.
pub fn action_points_available(start: i64, now: i64, action_points_per_day: u32) -> (points: u32)
    requires
        start <= now,
        points_accrued(start as int, now as int, action_points_per_day as int) <= u32::MAX,
    ensures
        points == points_accrued(start as int, now as int, action_points_per_day as int),
{
    points_granted(start, now, action_points_per_day) as u32
}

/// Action points granted by `now` in a battle that started at `start`, or
/// `None` where the clock stands before the start or the points do not fit
/// in 32 bits.
pub fn checked_action_points_available(
    start: i64,
    now: i64,
    action_points_per_day: u32,
) -> (points: Option<u32>)
    ensures
        match points {
            Some(granted) => start <= now && granted == points_accrued(
                start as int,
                now as int,
                action_points_per_day as int,
            ),
            None => now < start || points_accrued(
                start as int,
                now as int,
                action_points_per_day as int,
            ) > u32::MAX,
        },
{
    if now < start {
        return None;
    }
    let granted: u128 = points_granted(start, now, action_points_per_day);
    if granted > u32::MAX as u128 {
        None
    } else {
        Some(granted as u32)
    }
}

} // verus!

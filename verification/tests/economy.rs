use battle_royale_program::points::{action_points_available, checked_action_points_available};
use battle_royale_program::settlement::{split_entry_fee, EntryFeeSplit};

#[test]
fn no_points_at_the_start() {
    assert_eq!(action_points_available(1_000, 1_000, 8), 0);
    assert_eq!(action_points_available(-5, -5, u32::MAX), 0);
}

#[test]
fn a_full_day_grants_the_daily_points() {
    assert_eq!(action_points_available(1_000, 1_000 + 86_400, 8), 8);
    assert_eq!(action_points_available(0, 3 * 86_400, 8), 24);
}

#[test]
fn points_are_rounded_down() {
    assert_eq!(action_points_available(0, 43_200, 9), 4);
    assert_eq!(action_points_available(0, 86_399, 1), 0);
    assert_eq!(action_points_available(0, 10_799, 8), 0);
    assert_eq!(action_points_available(0, 10_800, 8), 1);
}

#[test]
fn points_never_decrease_with_time() {
    let mut last: u32 = 0;
    let mut now: i64 = 500;
    while now < 500 + 4 * 86_400 {
        let points = action_points_available(500, now, 24);
        assert!(points >= last);
        last = points;
        now += 1_801;
    }
    assert_eq!(last, 95);
}

#[test]
fn points_beyond_what_32_bit_arithmetic_holds_are_still_exact() {
    // 4_000_000_000 a day for half a day: the product does not fit in 32 bits
    assert_eq!(action_points_available(0, 43_200, 4_000_000_000), 2_000_000_000);
    assert_eq!(action_points_available(i64::MIN, i64::MIN + 86_400, u32::MAX), u32::MAX);
}

#[test]
fn checked_points_agree_where_they_fit() {
    assert_eq!(checked_action_points_available(1_000, 1_000 + 86_400, 8), Some(8));
    assert_eq!(checked_action_points_available(0, 43_200, 9), Some(4));
}

#[test]
fn checked_points_are_none_before_the_start() {
    assert_eq!(checked_action_points_available(10, 5, 9), None);
}

#[test]
fn checked_points_are_none_where_they_do_not_fit() {
    assert_eq!(checked_action_points_available(0, 2 * 86_400, u32::MAX), None);
    assert_eq!(checked_action_points_available(i64::MIN, i64::MAX, u32::MAX), None);
    assert_eq!(checked_action_points_available(0, 86_400, u32::MAX), Some(u32::MAX));
}

#[test]
fn fee_of_five_percent_of_a_thousand() {
    assert_eq!(
        split_entry_fee(1_000, 500),
        EntryFeeSplit { protocol_share: 50, pot_share: 950 }
    );
}

#[test]
fn fee_shares_are_rounded_towards_the_pot() {
    assert_eq!(
        split_entry_fee(999, 500),
        EntryFeeSplit { protocol_share: 49, pot_share: 950 }
    );
    assert_eq!(split_entry_fee(1, 9_999), EntryFeeSplit { protocol_share: 0, pot_share: 1 });
}

#[test]
fn fee_of_nothing_and_of_everything() {
    assert_eq!(split_entry_fee(1_000, 0), EntryFeeSplit { protocol_share: 0, pot_share: 1_000 });
    assert_eq!(
        split_entry_fee(1_000, 10_000),
        EntryFeeSplit { protocol_share: 1_000, pot_share: 0 }
    );
    assert_eq!(split_entry_fee(0, 500), EntryFeeSplit { protocol_share: 0, pot_share: 0 });
}

#[test]
fn fee_of_the_largest_entry_fee_does_not_overflow() {
    let split = split_entry_fee(u64::MAX, 10_000);
    assert_eq!(split, EntryFeeSplit { protocol_share: u64::MAX, pot_share: 0 });
    let split = split_entry_fee(u64::MAX, 5_000);
    assert_eq!(split.protocol_share, u64::MAX / 2);
    assert_eq!(split.protocol_share + split.pot_share, u64::MAX);
}

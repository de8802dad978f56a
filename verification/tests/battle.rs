use battle_royale_program::accounts::{Clock, TokenAccount};
use battle_royale_program::collection::CollectionInfo;
use battle_royale_program::errors::BattleRoyaleError;
use battle_royale_program::events::{ParticipantActionEvent, StartBattleEvent};
use battle_royale_program::instructions::{
    participant_action, start_battle, ParticipantAction, StartBattle,
};
use battle_royale_program::pubkey::Pubkey;
use battle_royale_program::state::{
    ActionType, BattlegroundState, BattlegroundStatus, ParticipantState,
};

const DAY: i64 = 86_400;

fn battle_key(byte: u8) -> Pubkey {
    Pubkey::new([byte; 32])
}

fn arena(status: BattlegroundStatus, participants: u32) -> BattlegroundState {
    BattlegroundState {
        id: 3,
        collection_info: CollectionInfo::V2 { collection_mint: battle_key(9) },
        start_time: 1_000,
        action_points_per_day: 8,
        participants_cap: 2,
        participants,
        status,
        pot_mint: battle_key(50),
        entry_fee: 1_000,
        last_winner: None,
        whitelist_root: None,
    }
}

fn fighter(mint: u8, attack: u32, defense: u32, health_points: u32) -> ParticipantState {
    ParticipantState {
        battleground: battle_key(40),
        nft_mint: battle_key(mint),
        attack,
        defense,
        health_points,
        action_points_spent: 0,
        alive: true,
    }
}

/// A of attack 120 and B of attack 100, one day into their battle.
fn duel() -> ParticipantAction {
    ParticipantAction {
        signer: battle_key(7),
        battleground_key: battle_key(40),
        battleground_state: arena(BattlegroundStatus::Ongoing, 2),
        participant_key: battle_key(60),
        participant_state: fighter(20, 120, 50, 850),
        target_participant_state: fighter(21, 100, 70, 950),
        player_nft_token_account: TokenAccount {
            owner: battle_key(7),
            mint: battle_key(20),
            amount: 1,
        },
        clock: Clock { unix_timestamp: 1_000 + DAY },
    }
}

#[test]
fn a_full_battleground_starts() {
    let mut ctx = StartBattle {
        battleground_key: battle_key(40),
        battleground: arena(BattlegroundStatus::Preparing, 2),
        clock: Clock { unix_timestamp: 123_456 },
    };
    ctx.battleground.start_time = 0;
    assert_eq!(start_battle(&mut ctx), Ok(StartBattleEvent { battleground: battle_key(40) }));
    assert_eq!(ctx.battleground.status, BattlegroundStatus::Ongoing);
    assert_eq!(ctx.battleground.start_time, 123_456);
    assert_eq!(ctx.battleground.participants, 2);
}

#[test]
fn a_battleground_with_room_does_not_start() {
    let mut ctx = StartBattle {
        battleground_key: battle_key(40),
        battleground: arena(BattlegroundStatus::Preparing, 1),
        clock: Clock { unix_timestamp: 123_456 },
    };
    let before = ctx.clone();
    assert_eq!(start_battle(&mut ctx), Err(BattleRoyaleError::BattlegroundNotFull));
    assert_eq!(ctx, before);
}

#[test]
fn a_battle_that_is_on_does_not_start_again() {
    let mut ctx = StartBattle {
        battleground_key: battle_key(40),
        battleground: arena(BattlegroundStatus::Ongoing, 2),
        clock: Clock { unix_timestamp: 123_456 },
    };
    let before = ctx.clone();
    assert_eq!(start_battle(&mut ctx), Err(BattleRoyaleError::WrongBattlegroundStatus));
    assert_eq!(ctx, before);
    ctx.battleground.participants = 1;
    assert_eq!(start_battle(&mut ctx), Err(BattleRoyaleError::WrongBattlegroundStatus));
}

#[test]
fn an_attack_with_all_the_points_of_a_day_eliminates_the_target() {
    let mut ctx = duel();
    assert!(ctx.is_valid());
    assert!(ctx.points_fit());
    let result = participant_action(&mut ctx, ActionType::Attack, 8);
    assert_eq!(
        result,
        Ok(ParticipantActionEvent {
            battleground: battle_key(40),
            participant: battle_key(60),
            action_type: ActionType::Attack,
            action_points_spent: 8,
        })
    );
    assert!(!ctx.target_participant_state.alive);
    assert_eq!(ctx.target_participant_state.health_points, 0);
    assert_eq!(ctx.battleground_state.participants, 1);
    assert_eq!(ctx.participant_state.action_points_spent, 8);
    assert_eq!(ctx.participant_state.health_points, 850);
    assert!(ctx.is_valid());
}

#[test]
fn an_attack_that_does_not_eliminate_takes_health() {
    let mut ctx = duel();
    let result = participant_action(&mut ctx, ActionType::Attack, 3);
    assert_eq!(result.unwrap().action_points_spent, 3);
    assert!(ctx.target_participant_state.alive);
    assert_eq!(ctx.target_participant_state.health_points, 590);
    assert_eq!(ctx.battleground_state.participants, 2);
    assert_eq!(ctx.participant_state.action_points_spent, 3);
}

#[test]
fn an_attack_spends_what_it_needs_and_announces_that() {
    let mut ctx = duel();
    ctx.target_participant_state.health_points = 200;
    let result = participant_action(&mut ctx, ActionType::Attack, 8);
    assert_eq!(result.unwrap().action_points_spent, 2);
    assert_eq!(ctx.participant_state.action_points_spent, 2);
    assert!(!ctx.target_participant_state.alive);
    // the six points left are still there to spend
    ctx.target_participant_state = fighter(22, 100, 50, 1_000);
    ctx.battleground_state.participants = 2;
    assert_eq!(
        participant_action(&mut ctx, ActionType::Attack, 7),
        Err(BattleRoyaleError::InsufficientActionPoints)
    );
    let result = participant_action(&mut ctx, ActionType::Attack, 6);
    assert_eq!(result.unwrap().action_points_spent, 6);
    assert_eq!(ctx.participant_state.action_points_spent, 8);
    assert_eq!(ctx.target_participant_state.health_points, 280);
}

#[test]
fn points_cannot_be_spent_twice() {
    let mut ctx = duel();
    ctx.target_participant_state.health_points = 1_100;
    assert!(participant_action(&mut ctx, ActionType::Attack, 5).is_ok());
    let before = ctx.clone();
    assert_eq!(
        participant_action(&mut ctx, ActionType::Attack, 4),
        Err(BattleRoyaleError::InsufficientActionPoints)
    );
    assert_eq!(ctx, before);
    assert!(participant_action(&mut ctx, ActionType::Attack, 3).is_ok());
    assert_eq!(ctx.participant_state.action_points_spent, 8);
    assert_eq!(
        participant_action(&mut ctx, ActionType::Attack, 1),
        Err(BattleRoyaleError::InsufficientActionPoints)
    );
}

#[test]
fn more_points_than_have_accrued_cannot_be_spent() {
    let mut ctx = duel();
    let before = ctx.clone();
    assert_eq!(
        participant_action(&mut ctx, ActionType::Attack, 9),
        Err(BattleRoyaleError::InsufficientActionPoints)
    );
    assert_eq!(ctx, before);
    ctx.clock.unix_timestamp = 1_000 + DAY - 1;
    assert_eq!(
        participant_action(&mut ctx, ActionType::Attack, 8),
        Err(BattleRoyaleError::InsufficientActionPoints)
    );
    assert!(participant_action(&mut ctx, ActionType::Attack, 7).is_ok());
}

#[test]
fn no_points_can_be_spent_at_or_before_the_start() {
    let mut ctx = duel();
    ctx.clock.unix_timestamp = 1_000;
    assert_eq!(
        participant_action(&mut ctx, ActionType::Heal, 1),
        Err(BattleRoyaleError::InsufficientActionPoints)
    );
    ctx.clock.unix_timestamp = 0;
    assert!(ctx.points_fit());
    assert_eq!(
        participant_action(&mut ctx, ActionType::Attack, 1),
        Err(BattleRoyaleError::InsufficientActionPoints)
    );
}

#[test]
fn an_action_of_no_points_is_rejected() {
    let mut ctx = duel();
    let before = ctx.clone();
    assert_eq!(
        participant_action(&mut ctx, ActionType::Attack, 0),
        Err(BattleRoyaleError::InvalidParameter)
    );
    assert_eq!(
        participant_action(&mut ctx, ActionType::Heal, 0),
        Err(BattleRoyaleError::InvalidParameter)
    );
    assert_eq!(ctx, before);
}

#[test]
fn a_heal_restores_half_the_healers_defense_a_point() {
    let mut ctx = duel();
    // the target of defense 70 has 1100 at most; the healer of defense 50 heals 25 a point
    let result = participant_action(&mut ctx, ActionType::Heal, 4);
    assert_eq!(
        result,
        Ok(ParticipantActionEvent {
            battleground: battle_key(40),
            participant: battle_key(60),
            action_type: ActionType::Heal,
            action_points_spent: 4,
        })
    );
    assert_eq!(ctx.target_participant_state.health_points, 1_050);
    assert_eq!(ctx.participant_state.action_points_spent, 4);
    assert_eq!(ctx.battleground_state.participants, 2);
    assert!(ctx.target_participant_state.alive);
}

#[test]
fn a_heal_stops_at_full_health() {
    let mut ctx = duel();
    ctx.target_participant_state.health_points = 1_060;
    let result = participant_action(&mut ctx, ActionType::Heal, 8);
    assert_eq!(result.unwrap().action_points_spent, 2);
    assert_eq!(ctx.target_participant_state.health_points, 1_100);
    assert_eq!(ctx.participant_state.action_points_spent, 2);
    // a target in full health takes no points
    let result = participant_action(&mut ctx, ActionType::Heal, 6);
    assert_eq!(result.unwrap().action_points_spent, 0);
    assert_eq!(ctx.target_participant_state.health_points, 1_100);
    assert_eq!(ctx.participant_state.action_points_spent, 2);
}

#[test]
fn nobody_acts_before_the_battle_is_on() {
    let mut ctx = duel();
    ctx.battleground_state.status = BattlegroundStatus::Preparing;
    let before = ctx.clone();
    assert_eq!(
        participant_action(&mut ctx, ActionType::Attack, 1),
        Err(BattleRoyaleError::WrongBattlegroundStatus)
    );
    assert_eq!(ctx, before);
    // whatever else is wrong, the state of the battleground comes first
    ctx.participant_state.alive = false;
    assert_eq!(
        participant_action(&mut ctx, ActionType::Attack, 0),
        Err(BattleRoyaleError::WrongBattlegroundStatus)
    );
    ctx.battleground_state.status = BattlegroundStatus::Finished;
    assert_eq!(
        participant_action(&mut ctx, ActionType::Heal, 1),
        Err(BattleRoyaleError::WrongBattlegroundStatus)
    );
}

#[test]
fn an_eliminated_participant_does_not_act() {
    let mut ctx = duel();
    ctx.participant_state.alive = false;
    ctx.participant_state.health_points = 0;
    let before = ctx.clone();
    assert_eq!(
        participant_action(&mut ctx, ActionType::Attack, 1),
        Err(BattleRoyaleError::ParticipantDead)
    );
    assert_eq!(
        participant_action(&mut ctx, ActionType::Heal, 1),
        Err(BattleRoyaleError::ParticipantDead)
    );
    assert_eq!(ctx, before);
}

#[test]
fn an_eliminated_participant_is_not_acted_upon() {
    let mut ctx = duel();
    assert!(participant_action(&mut ctx, ActionType::Attack, 8).is_ok());
    assert!(!ctx.target_participant_state.alive);
    ctx.clock.unix_timestamp = 1_000 + 2 * DAY;
    let before = ctx.clone();
    assert_eq!(
        participant_action(&mut ctx, ActionType::Attack, 1),
        Err(BattleRoyaleError::TargetDead)
    );
    assert_eq!(
        participant_action(&mut ctx, ActionType::Heal, 1),
        Err(BattleRoyaleError::TargetDead)
    );
    assert_eq!(ctx, before);
}

#[test]
fn a_participant_does_not_act_on_itself() {
    let mut ctx = duel();
    ctx.target_participant_state = ctx.participant_state;
    let before = ctx.clone();
    assert_eq!(
        participant_action(&mut ctx, ActionType::Heal, 1),
        Err(BattleRoyaleError::InvalidTarget)
    );
    assert_eq!(ctx, before);
}

#[test]
fn only_the_holder_of_the_collectible_acts() {
    let mut ctx = duel();
    ctx.signer = battle_key(8);
    let before = ctx.clone();
    assert_eq!(
        participant_action(&mut ctx, ActionType::Attack, 1),
        Err(BattleRoyaleError::NotTokenHolder)
    );
    assert_eq!(ctx, before);
    let mut ctx = duel();
    ctx.player_nft_token_account.mint = battle_key(21);
    assert_eq!(
        participant_action(&mut ctx, ActionType::Attack, 1),
        Err(BattleRoyaleError::NotTokenHolder)
    );
    let mut ctx = duel();
    ctx.player_nft_token_account.amount = 0;
    assert_eq!(
        participant_action(&mut ctx, ActionType::Attack, 1),
        Err(BattleRoyaleError::NotTokenHolder)
    );
}

#[test]
fn participants_of_another_battleground_take_no_part() {
    let mut ctx = duel();
    ctx.participant_state.battleground = battle_key(41);
    let before = ctx.clone();
    assert_eq!(
        participant_action(&mut ctx, ActionType::Attack, 1),
        Err(BattleRoyaleError::ParticipantNotFound)
    );
    assert_eq!(ctx, before);
    let mut ctx = duel();
    ctx.target_participant_state.battleground = battle_key(41);
    assert_eq!(
        participant_action(&mut ctx, ActionType::Attack, 1),
        Err(BattleRoyaleError::ParticipantNotFound)
    );
    let mut ctx = duel();
    ctx.target_participant_state = ParticipantState::default();
    assert_eq!(
        participant_action(&mut ctx, ActionType::Attack, 1),
        Err(BattleRoyaleError::ParticipantNotFound)
    );
}

#[test]
fn a_duel_without_two_counted_participants_is_not_valid() {
    let mut ctx = duel();
    ctx.battleground_state.participants = 1;
    assert!(!ctx.is_valid());
    ctx.target_participant_state.alive = false;
    assert!(ctx.is_valid());
    let mut ctx = duel();
    ctx.participant_state.attack = 99;
    assert!(!ctx.is_valid());
    let mut ctx = duel();
    ctx.target_participant_state.health_points = 1_101;
    assert!(!ctx.is_valid());
    ctx.target_participant_state.health_points = 0;
    assert!(!ctx.is_valid());
}

#[test]
fn points_that_do_not_fit_are_told() {
    let mut ctx = duel();
    ctx.battleground_state.action_points_per_day = u32::MAX;
    ctx.clock.unix_timestamp = 1_000 + DAY;
    assert!(ctx.points_fit());
    ctx.clock.unix_timestamp = 1_000 + DAY + 1;
    assert!(!ctx.points_fit());
}

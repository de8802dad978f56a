use battle_royale_program::accounts::{Clock, TokenAccount};
use battle_royale_program::collection::{Collection, CollectionInfo, NftMetadata};
use battle_royale_program::errors::BattleRoyaleError;
use battle_royale_program::instructions::{
    finish_battle, join_battleground, participant_action, start_battle, FinishBattle,
    JoinBattleground, ParticipantAction, StartBattle,
};
use battle_royale_program::points::action_points_available;
use battle_royale_program::pubkey::Pubkey;
use battle_royale_program::state::{
    full_health, ActionType, BattleRoyaleState, BattlegroundState, BattlegroundStatus,
    ParticipantState,
};

const GROUND: u8 = 200;
const ENTRANTS: usize = 6;

fn tournament_key(byte: u8) -> Pubkey {
    Pubkey::new([byte; 32])
}

fn mint_of(entrant: usize) -> Pubkey {
    tournament_key(10 + entrant as u8)
}

fn holder_of(entrant: usize) -> Pubkey {
    tournament_key(100 + entrant as u8)
}

fn holding_of(entrant: usize) -> TokenAccount {
    TokenAccount { owner: holder_of(entrant), mint: mint_of(entrant), amount: 1 }
}

/// A small generator of numbers that look random and are the same every run.
fn next(seed: &mut u64) -> u64 {
    *seed ^= *seed << 13;
    *seed ^= *seed >> 7;
    *seed ^= *seed << 17;
    *seed
}

fn living_among(roster: &[ParticipantState]) -> u32 {
    roster.iter().filter(|record| record.alive).count() as u32
}

fn enter_all(
    registry: BattleRoyaleState,
    mut battleground: BattlegroundState,
    roster: &mut Vec<ParticipantState>,
    seed: &mut u64,
) -> (BattlegroundState, u64) {
    let mut pot: u64 = 0;
    for entrant in 0..ENTRANTS {
        if roster[entrant].alive {
            // the winner of the last round is in already
            continue;
        }
        let attack = (next(seed) % 101) as u32;
        let defense = (next(seed) % (101 - attack as u64)) as u32;
        let mut entry = JoinBattleground {
            signer: holder_of(entrant),
            battle_royale: registry,
            battleground_key: tournament_key(GROUND),
            battleground,
            participant: roster[entrant],
            nft_mint: mint_of(entrant),
            nft_metadata: NftMetadata {
                mint: mint_of(entrant),
                symbol: String::from("ANY"),
                creators: None,
                collection: Some(Collection { verified: true, key: tournament_key(9) }),
            },
            player_nft_token_account: holding_of(entrant),
        };
        let admission = join_battleground(&mut entry, attack, defense, None).unwrap();
        assert_eq!(admission.fee.protocol_share + admission.fee.pot_share, 777);
        assert_eq!(admission.fee.protocol_share, 777 * 1_234 / 10_000);
        pot += admission.fee.pot_share;
        assert_eq!(entry.participant.attack, attack + 100);
        assert_eq!(entry.participant.defense, defense + 50);
        assert_eq!(entry.participant.health_points, full_health(defense + 50));
        roster[entrant] = entry.participant;
        battleground = entry.battleground;
    }
    (battleground, pot)
}

fn fight_to_the_end(
    mut battleground: BattlegroundState,
    roster: &mut Vec<ParticipantState>,
    seed: &mut u64,
) -> BattlegroundState {
    let start = battleground.start_time;
    let mut now = start;
    let mut steps = 0;
    while battleground.participants > 1 {
        steps += 1;
        assert!(steps < 100_000);
        now += (next(seed) % 7_200) as i64;
        let actor = (next(seed) % ENTRANTS as u64) as usize;
        let target = (next(seed) % ENTRANTS as u64) as usize;
        let action_type =
            if next(seed) % 4 == 0 { ActionType::Heal } else { ActionType::Attack };
        let action_points = (next(seed) % 6) as u32;
        let mut action = ParticipantAction {
            signer: holder_of(actor),
            battleground_key: tournament_key(GROUND),
            battleground_state: battleground.clone(),
            participant_key: tournament_key(150 + actor as u8),
            participant_state: roster[actor],
            target_participant_state: roster[target],
            player_nft_token_account: holding_of(actor),
            clock: Clock { unix_timestamp: now },
        };
        assert!(action.is_valid() && action.points_fit());
        let before = action.clone();
        let accrued = action_points_available(start, now, battleground.action_points_per_day);
        match participant_action(&mut action, action_type, action_points) {
            Ok(event) => {
                assert!(roster[actor].alive && roster[target].alive && actor != target);
                assert!(action_points > 0);
                assert!(event.action_points_spent <= action_points);
                assert_eq!(
                    action.participant_state.action_points_spent,
                    before.participant_state.action_points_spent + event.action_points_spent
                );
                assert!(action.participant_state.action_points_spent <= accrued);
                let target_before = before.target_participant_state;
                let target_after = action.target_participant_state;
                assert!(target_after.health_points <= full_health(target_after.defense));
                assert_eq!(target_after.alive, target_after.health_points > 0);
                match action_type {
                    ActionType::Attack => {
                        assert!(target_after.health_points <= target_before.health_points);
                        let damage =
                            event.action_points_spent * before.participant_state.attack;
                        assert_eq!(
                            target_after.health_points,
                            target_before.health_points.saturating_sub(damage)
                        );
                        if event.action_points_spent < action_points {
                            assert!(!target_after.alive);
                        }
                    }
                    ActionType::Heal => {
                        assert!(target_after.health_points >= target_before.health_points);
                        if event.action_points_spent < action_points {
                            assert_eq!(
                                target_after.health_points,
                                full_health(target_after.defense)
                            );
                        }
                    }
                }
                roster[actor] = action.participant_state;
                roster[target] = action.target_participant_state;
                battleground = action.battleground_state;
            }
            Err(error) => {
                assert_eq!(action, before);
                if !roster[actor].alive {
                    assert_eq!(error, BattleRoyaleError::ParticipantDead);
                } else if !roster[target].alive {
                    assert_eq!(error, BattleRoyaleError::TargetDead);
                } else if actor == target {
                    assert_eq!(error, BattleRoyaleError::InvalidTarget);
                } else if action_points == 0 {
                    assert_eq!(error, BattleRoyaleError::InvalidParameter);
                } else {
                    assert_eq!(error, BattleRoyaleError::InsufficientActionPoints);
                    assert!(roster[actor].action_points_spent + action_points > accrued);
                }
            }
        }
        assert_eq!(battleground.participants, living_among(roster));
        for record in roster.iter() {
            assert!(record.is_valid());
        }
    }
    battleground
}

#[test]
fn a_tournament_of_six_runs_to_one_survivor_round_after_round() {
    let mut seed: u64 = 0x9e37_79b9_7f4a_7c15;
    let registry =
        BattleRoyaleState { game_master: tournament_key(1), fee: 1_234, last_battleground_id: 1 };
    let mut battleground = BattlegroundState {
        id: 0,
        collection_info: CollectionInfo::V2 { collection_mint: tournament_key(9) },
        start_time: 0,
        action_points_per_day: 48,
        participants_cap: ENTRANTS as u32,
        participants: 0,
        status: BattlegroundStatus::Preparing,
        pot_mint: tournament_key(50),
        entry_fee: 777,
        last_winner: None,
        whitelist_root: None,
    };
    let mut roster = vec![ParticipantState::default(); ENTRANTS];
    let mut clock: i64 = 1_700_000_000;

    for round in 0..3 {
        let (entered, pot) = enter_all(registry, battleground, &mut roster, &mut seed);
        assert_eq!(entered.participants, ENTRANTS as u32);
        let paying = if round == 0 { ENTRANTS as u64 } else { ENTRANTS as u64 - 1 };
        assert_eq!(pot, paying * (777 - 777 * 1_234 / 10_000));

        let mut start = StartBattle {
            battleground_key: tournament_key(GROUND),
            battleground: entered,
            clock: Clock { unix_timestamp: clock },
        };
        assert!(start_battle(&mut start).is_ok());

        let fought = fight_to_the_end(start.battleground, &mut roster, &mut seed);
        assert_eq!(fought.participants, 1);
        let winner = roster.iter().position(|record| record.alive).unwrap();

        // nobody but the survivor can claim the pot
        let mut settled: Option<BattlegroundState> = None;
        for claimant in 0..ENTRANTS {
            let mut claim = FinishBattle {
                winner: holder_of(claimant),
                battleground_key: tournament_key(GROUND),
                battleground: fought.clone(),
                participant_key: tournament_key(150 + claimant as u8),
                participant: roster[claimant],
                pot_account: TokenAccount {
                    owner: tournament_key(GROUND + 1),
                    mint: tournament_key(50),
                    amount: pot,
                },
                winner_nft_token_account: holding_of(claimant),
            };
            let result = finish_battle(&mut claim);
            if claimant == winner {
                let event = result.unwrap();
                assert_eq!(event.pot_amount, pot);
                assert_eq!(claim.pot_account.amount, 0);
                assert_eq!(claim.battleground.status, BattlegroundStatus::Preparing);
                assert_eq!(claim.battleground.last_winner, Some(mint_of(winner)));
                assert_eq!(claim.participant.action_points_spent, 0);
                assert_eq!(
                    claim.participant.health_points,
                    full_health(claim.participant.defense)
                );
                roster[winner] = claim.participant;
                settled = Some(claim.battleground);
            } else {
                assert_eq!(result, Err(BattleRoyaleError::ParticipantDead));
            }
        }

        // the survivor keeps its place for the next round
        battleground = settled.unwrap();
        assert_eq!(battleground.participants, 1);
        assert_eq!(living_among(&roster), 1);
        clock += 1_000_000;
    }
}

//! The operations of the tournament, one per module.

pub mod create_battleground;
pub mod finish_battle;
pub mod initialize;
pub mod join_battleground;
pub mod leave_battleground;
pub mod participant_action;
pub mod start_battle;

pub use self::create_battleground::{create_battleground, CreateBattleground};
pub use self::finish_battle::{finish_battle, FinishBattle};
pub use self::initialize::{initialize, Initialize};
pub use self::join_battleground::{
    join_battleground, register_entrant, Admission, JoinBattleground,
};
pub use self::leave_battleground::{leave_battleground, LeaveBattleground};
pub use self::participant_action::{participant_action, ParticipantAction};
pub use self::start_battle::{start_battle, StartBattle};

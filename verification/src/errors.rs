//! The reasons an operation can be rejected.

use vstd::prelude::*;

verus! {

/// Why an operation was rejected. A rejected operation changes nothing.
#[derive(Clone, Copy, Debug, PartialEq, Eq, Structural)]
pub enum BattleRoyaleError {
    /// A numeric argument lies outside its range.
    InvalidParameter,
    /// The declared attack and defense exceed the stat budget.
    InvalidStatistics,
    /// The collection symbol is longer than a symbol may be.
    CollectionSymbolInvalid,
    /// The accepted-creator set is empty or too large.
    VerifiedCreatorsInvalid,
    /// The collectible does not belong to the battleground's collection.
    CollectionVerificationFailed,
    /// The acting participant has not accrued the requested points.
    InsufficientActionPoints,
    /// The battleground is not in the state the operation needs.
    WrongBattlegroundStatus,
    /// The caller is not the operator of the registry.
    Unauthorized,
    /// The battleground already holds as many entrants as it admits.
    BattlegroundFull,
    /// The battleground does not yet hold as many entrants as it needs.
    BattlegroundNotFull,
    /// The participant is still alive, so it can neither re-enter nor leave.
    ParticipantAlive,
    /// The acting or claiming participant has been eliminated.
    ParticipantDead,
    /// The target of the action has been eliminated.
    TargetDead,
    /// The target of the action is the acting participant itself.
    InvalidTarget,
    /// More than one participant is still alive.
    BattleNotOver,
    /// The caller does not hold the collectible behind the participant.
    NotTokenHolder,
    /// The participant is not registered in this battleground.
    ParticipantNotFound,
}

impl BattleRoyaleError {
    /// The sentence that tells a person what went wrong.
    pub open spec fn text(self) -> Seq<char> {
        match self {
            BattleRoyaleError::InvalidParameter => "Invalid parameter"@,
            BattleRoyaleError::InvalidStatistics => "Invalid statistics"@,
            BattleRoyaleError::CollectionSymbolInvalid => "Invalid collection symbol"@,
            BattleRoyaleError::VerifiedCreatorsInvalid => "Invalid provided creators"@,
            BattleRoyaleError::CollectionVerificationFailed => "Failed collection verification"@,
            BattleRoyaleError::InsufficientActionPoints => "Not enough action points"@,
            BattleRoyaleError::WrongBattlegroundStatus => "Wrong battleground status"@,
            BattleRoyaleError::Unauthorized => "Only the game master can do this"@,
            BattleRoyaleError::BattlegroundFull => "Battleground is full"@,
            BattleRoyaleError::BattlegroundNotFull => "Battleground is not full"@,
            BattleRoyaleError::ParticipantAlive => "Participant is still alive"@,
            BattleRoyaleError::ParticipantDead => "Participant is dead"@,
            BattleRoyaleError::TargetDead => "Target is dead"@,
            BattleRoyaleError::InvalidTarget => "Target is the participant itself"@,
            BattleRoyaleError::BattleNotOver => "More than one participant is alive"@,
            BattleRoyaleError::NotTokenHolder => "Signer does not hold the token"@,
            BattleRoyaleError::ParticipantNotFound => "Participant is not in this battleground"@,
        }
    }

    /// The sentence that tells a person what went wrong.
    pub fn message(&self) -> (message: &'static str)
        ensures
            message@ == self.text(),
    {
        match self {
            BattleRoyaleError::InvalidParameter => "Invalid parameter",
            BattleRoyaleError::InvalidStatistics => "Invalid statistics",
            BattleRoyaleError::CollectionSymbolInvalid => "Invalid collection symbol",
            BattleRoyaleError::VerifiedCreatorsInvalid => "Invalid provided creators",
            BattleRoyaleError::CollectionVerificationFailed => "Failed collection verification",
            BattleRoyaleError::InsufficientActionPoints => "Not enough action points",
            BattleRoyaleError::WrongBattlegroundStatus => "Wrong battleground status",
            BattleRoyaleError::Unauthorized => "Only the game master can do this",
            BattleRoyaleError::BattlegroundFull => "Battleground is full",
            BattleRoyaleError::BattlegroundNotFull => "Battleground is not full",
            BattleRoyaleError::ParticipantAlive => "Participant is still alive",
            BattleRoyaleError::ParticipantDead => "Participant is dead",
            BattleRoyaleError::TargetDead => "Target is dead",
            BattleRoyaleError::InvalidTarget => "Target is the participant itself",
            BattleRoyaleError::BattleNotOver => "More than one participant is alive",
            BattleRoyaleError::NotTokenHolder => "Signer does not hold the token",
            BattleRoyaleError::ParticipantNotFound => "Participant is not in this battleground",
        }
    }
}

} // verus!

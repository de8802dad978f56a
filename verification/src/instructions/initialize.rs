//! The registry is set up, or its operator changes its terms.

use vstd::prelude::*;

use crate::errors::BattleRoyaleError;
use crate::pubkey::Pubkey;
use crate::state::{BattleRoyaleState, FEE_DENOMINATOR};

verus! {

/// The records an initialization concerns: the caller and the registry. A
/// registry that has never been set up has the all-zero key as operator.
#[derive(Clone, Copy, Debug, PartialEq, Eq)]
pub struct Initialize {
    pub signer: Pubkey,
    pub battle_royale_state: BattleRoyaleState,
}

impl Initialize {
    /// Whether the registry has been set up before.
    pub open spec fn already_set_up(self) -> bool {
        !self.battle_royale_state.game_master.is_zero()
    }

    /// The first rule that the initialization breaks, if it breaks any:
    /// only the operator changes a registry that has one, and the fee is at
    /// most the whole.
    pub open spec fn rejection(self, fee: u16) -> Option<BattleRoyaleError> {
        if self.already_set_up() && self.signer != self.battle_royale_state.game_master {
            Some(BattleRoyaleError::Unauthorized)
        } else if fee > FEE_DENOMINATOR {
            Some(BattleRoyaleError::InvalidParameter)
        } else {
            None
        }
    }

    /// The registry as an initialization leaves it: it has the given
    /// operator and fee, and goes on numbering battlegrounds where it was,
    /// or from zero if it had never been set up.
    pub open spec fn initialized(self, game_master: Pubkey, fee: u16) -> BattleRoyaleState {
        BattleRoyaleState {
            game_master,
            fee,
            last_battleground_id: if self.already_set_up() {
                self.battle_royale_state.last_battleground_id
            } else {
                0
            },
        }
    }
}

/// Sets the operator and the operator's share of the entry fees, in basis
/// points.
///
/// Anyone sets up a registry that has no operator yet; afterwards only the
/// operator changes it. A fee above 10000 basis points is rejected. A
/// rejected initialization changes nothing.
pub fn initialize(ctx: &mut Initialize, game_master: Pubkey, fee: u16) -> (result: Result<
    (),
    BattleRoyaleError,
>)
    ensures
        match result {
            Ok(()) => {
                &&& old(ctx).rejection(fee) is None
                &&& final(ctx).battle_royale_state == old(ctx).initialized(game_master, fee)
                &&& final(ctx).signer == old(ctx).signer
                &&& final(ctx).battle_royale_state.wf()
            },
            Err(error) => {
                &&& old(ctx).rejection(fee) == Some(error)
                &&& *final(ctx) == *old(ctx)
            },
        },
{
    let already_set_up = !ctx.battle_royale_state.game_master.is_default();
    if already_set_up && ctx.signer != ctx.battle_royale_state.game_master {
        return Err(BattleRoyaleError::Unauthorized);
    }
    if fee > FEE_DENOMINATOR {
        return Err(BattleRoyaleError::InvalidParameter);
    }
    ctx.battle_royale_state = BattleRoyaleState {
        game_master,
        fee,
        last_battleground_id: if already_set_up {
            ctx.battle_royale_state.last_battleground_id
        } else {
            0
        },
    };
    Ok(())
}

} // verus!

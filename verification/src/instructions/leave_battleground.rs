//! An eliminated collectible withdraws its registration.

use vstd::prelude::*;

use crate::accounts::TokenAccount;
use crate::errors::BattleRoyaleError;
use crate::events::LeaveBattlegroundEvent;
use crate::pubkey::Pubkey;
use crate::state::{BattlegroundState, BattlegroundStatus, ParticipantState};

verus! {

/// The records a withdrawal concerns: the battleground, the record to be
/// withdrawn, and the caller with the token account that shows it holds the
/// record's collectible.
#[derive(Clone, Debug, PartialEq, Eq)]
pub struct LeaveBattleground {
    pub signer: Pubkey,
    pub battleground_key: Pubkey,
    pub battleground: BattlegroundState,
    pub participant: ParticipantState,
    pub player_nft_token_account: TokenAccount,
}

impl LeaveBattleground {
    /// The first rule that the withdrawal breaks, if it breaks any.
    pub open spec fn rejection(self) -> Option<BattleRoyaleError> {
        if self.battleground.status != BattlegroundStatus::Preparing {
            Some(BattleRoyaleError::WrongBattlegroundStatus)
        } else if self.participant.battleground != self.battleground_key {
            Some(BattleRoyaleError::ParticipantNotFound)
        } else if self.participant.alive {
            Some(BattleRoyaleError::ParticipantAlive)
        } else if !self.player_nft_token_account.shows_holder(
            self.signer,
            self.participant.nft_mint,
        ) {
            Some(BattleRoyaleError::NotTokenHolder)
        } else {
            None
        }
    }
}

/// Withdraws the registration of an eliminated collectible.
///
/// A registration may be withdrawn while the battleground is preparing,
/// where the record is that of an eliminated participant of this
/// battleground and the caller holds its collectible. The record is then
/// blank, as if the collectible had never entered; the battleground stopped
/// counting it when it was eliminated. A rejected withdrawal changes
/// nothing.
pub fn leave_battleground(ctx: &mut LeaveBattleground) -> (result: Result<
    LeaveBattlegroundEvent,
    BattleRoyaleError,
>)
    ensures
        match result {
            Ok(event) => {
                &&& old(ctx).rejection() is None
                &&& final(ctx).participant.is_blank()
                &&& event == (LeaveBattlegroundEvent {
                    battleground: old(ctx).battleground_key,
                    nft_mint: old(ctx).participant.nft_mint,
                })
            },
            Err(error) => {
                &&& old(ctx).rejection() == Some(error)
                &&& *final(ctx) == *old(ctx)
            },
        },
        final(ctx).signer == old(ctx).signer,
        final(ctx).battleground_key == old(ctx).battleground_key,
        final(ctx).battleground == old(ctx).battleground,
        final(ctx).player_nft_token_account == old(ctx).player_nft_token_account,
        old(ctx).participant.wf() ==> final(ctx).participant.wf(),
{
    if ctx.battleground.status != BattlegroundStatus::Preparing {
        return Err(BattleRoyaleError::WrongBattlegroundStatus);
    }
    if ctx.participant.battleground != ctx.battleground_key {
        return Err(BattleRoyaleError::ParticipantNotFound);
    }
    if ctx.participant.alive {
        return Err(BattleRoyaleError::ParticipantAlive);
    }
    if !ctx.player_nft_token_account.proves_holder(&ctx.signer, &ctx.participant.nft_mint) {
        return Err(BattleRoyaleError::NotTokenHolder);
    }
    let nft_mint = ctx.participant.nft_mint;
    ctx.participant = ParticipantState::default();
    Ok(LeaveBattlegroundEvent { battleground: ctx.battleground_key, nft_mint })
}

} // verus!

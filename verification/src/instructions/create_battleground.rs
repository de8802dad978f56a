//! A battleground is created.

use vstd::prelude::*;

use crate::collection::{utf8_bytes, CollectionInfo, MAX_SYMBOL_BYTES, MAX_VERIFIED_CREATORS};
use crate::errors::BattleRoyaleError;
use crate::events::CreateBattlegroundEvent;
use crate::pubkey::Pubkey;
use crate::state::{BattleRoyaleState, BattlegroundState, BattlegroundStatus};

verus! {

/// The records a creation concerns: the registry, which numbers the
/// battlegrounds, the record that is to hold the new battleground with the
/// key it will be known by, and the denomination of its pot.
#[derive(Clone, Debug, PartialEq, Eq)]
pub struct CreateBattleground {
    pub battle_royale_state: BattleRoyaleState,
    pub battleground_key: Pubkey,
    pub battleground_state: BattlegroundState,
    pub pot_mint: Pubkey,
}

/// Why a collection criterion cannot be that of a battleground, if it
/// cannot: its symbol is too long, or else its accepted creators are none
/// or too many.
pub open spec fn criterion_rejection(collection_info: CollectionInfo) -> Option<BattleRoyaleError> {
    match collection_info {
        CollectionInfo::V1 { symbol, verified_creators, whitelist_root } => {
            if utf8_bytes(symbol@).len() > MAX_SYMBOL_BYTES {
                Some(BattleRoyaleError::CollectionSymbolInvalid)
            } else if verified_creators@.len() == 0 || verified_creators@.len()
                > MAX_VERIFIED_CREATORS {
                Some(BattleRoyaleError::VerifiedCreatorsInvalid)
            } else {
                None
            }
        },
        CollectionInfo::V2 { collection_mint } => None,
    }
}

/// Tests a collection criterion: `Ok` where a battleground can have it,
/// else the reason why it cannot.
pub fn check_criterion_shape(collection_info: &CollectionInfo) -> (result: Result<
    (),
    BattleRoyaleError,
>)
    ensures
        result is Ok <==> criterion_rejection(*collection_info) is None,
        result matches Err(error) ==> criterion_rejection(*collection_info) == Some(error),
        result is Ok <==> collection_info.wf(),
{
    match collection_info {
        CollectionInfo::V1 { symbol, verified_creators, whitelist_root } => {
            if symbol.as_str().as_bytes().len() > MAX_SYMBOL_BYTES {
                return Err(BattleRoyaleError::CollectionSymbolInvalid);
            }
            if verified_creators.len() == 0 || verified_creators.len() > MAX_VERIFIED_CREATORS {
                return Err(BattleRoyaleError::VerifiedCreatorsInvalid);
            }
            Ok(())
        },
        CollectionInfo::V2 { collection_mint } => Ok(()),
    }
}

impl CreateBattleground {
    /// The battleground that a creation with the given terms sets up: it
    /// has the registry's next id, is preparing, and is empty.
    pub open spec fn created(
        self,
        collection_info: CollectionInfo,
        participants_cap: u32,
        entry_fee: u64,
        action_points_per_day: u32,
        whitelist_root: Option<[u8; 32]>,
    ) -> BattlegroundState {
        BattlegroundState {
            id: self.battle_royale_state.last_battleground_id,
            collection_info,
            start_time: 0,
            action_points_per_day,
            participants_cap,
            participants: 0,
            status: BattlegroundStatus::Preparing,
            pot_mint: self.pot_mint,
            entry_fee,
            last_winner: None,
            whitelist_root,
        }
    }
}

/// Creates a battleground with the given terms and gives it the registry's
/// next id, which no later battleground will have.
///
/// The creation is rejected where the collection criterion has a symbol of
/// more than 32 bytes, or no accepted creator, or more than five. A
/// rejected creation changes nothing.
pub fn create_battleground(
    ctx: &mut CreateBattleground,
    collection_info: CollectionInfo,
    participants_cap: u32,
    entry_fee: u64,
    action_points_per_day: u32,
    whitelist_root: Option<[u8; 32]>,
) -> (result: Result<CreateBattlegroundEvent, BattleRoyaleError>)
    requires
        old(ctx).battle_royale_state.last_battleground_id < u64::MAX,
    ensures
        match result {
            Ok(event) => {
                &&& criterion_rejection(collection_info) is None
                &&& final(ctx).battleground_state == old(ctx).created(
                    collection_info,
                    participants_cap,
                    entry_fee,
                    action_points_per_day,
                    whitelist_root,
                )
                &&& final(ctx).battleground_state.wf()
                &&& final(ctx).battle_royale_state == (BattleRoyaleState {
                    last_battleground_id: (old(ctx).battle_royale_state.last_battleground_id
                        + 1) as u64,
                    ..old(ctx).battle_royale_state
                })
                &&& final(ctx).battleground_key == old(ctx).battleground_key
                &&& final(ctx).pot_mint == old(ctx).pot_mint
                &&& event == (CreateBattlegroundEvent { battleground: old(ctx).battleground_key })
            },
            Err(error) => {
                &&& criterion_rejection(collection_info) == Some(error)
                &&& *final(ctx) == *old(ctx)
            },
        },
{
    match check_criterion_shape(&collection_info) {
        Ok(()) => {},
        Err(error) => {
            return Err(error);
        },
    }
    ctx.battleground_state = BattlegroundState {
        id: ctx.battle_royale_state.last_battleground_id,
        collection_info,
        start_time: 0,
        action_points_per_day,
        participants_cap,
        participants: 0,
        status: BattlegroundStatus::Preparing,
        pot_mint: ctx.pot_mint,
        entry_fee,
        last_winner: None,
        whitelist_root,
    };
    ctx.battle_royale_state.last_battleground_id = ctx.battle_royale_state.last_battleground_id
        + 1;
    Ok(CreateBattlegroundEvent { battleground: ctx.battleground_key })
}

} // verus!

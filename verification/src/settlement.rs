//! Who is owed what of an entry fee.
//!
//! The operator keeps a share of every entry fee, stated in basis points;
//! the rest goes to the pot, which the last entrant alive receives whole.

use vstd::arithmetic::div_mod::{lemma_div_is_ordered, lemma_fundamental_div_mod_converse};
use vstd::arithmetic::mul::lemma_mul_inequality;
use vstd::prelude::*;

use crate::state::FEE_DENOMINATOR;

verus! {

/// The operator's share of an entry fee: `fee` basis points of it, rounded
/// down.
pub open spec fn protocol_share(entry_fee: int, fee: int) -> int {
    entry_fee * fee / (FEE_DENOMINATOR as int)
}

/// The pot's share of an entry fee: what the operator does not keep.
pub open spec fn pot_share(entry_fee: int, fee: int) -> int {
    entry_fee - protocol_share(entry_fee, fee)
}

/// The two parts of an entry fee.
#[derive(Clone, Copy, Debug, PartialEq, Eq)]
pub struct EntryFeeSplit {
    /// Owed to the operator.
    pub protocol_share: u64,
    /// Owed to the pot.
    pub pot_share: u64,
}

/// The two shares are parts of the fee: neither is negative and together
/// they are the whole of it.
pub proof fn lemma_fee_split_is_exact(entry_fee: int, fee: int)
    requires
        0 <= entry_fee,
        0 <= fee <= FEE_DENOMINATOR,
    ensures
        0 <= protocol_share(entry_fee, fee) <= entry_fee,
        0 <= pot_share(entry_fee, fee) <= entry_fee,
        protocol_share(entry_fee, fee) + pot_share(entry_fee, fee) == entry_fee,
{
    assert(0 <= entry_fee * fee) by (nonlinear_arith)
        requires
            0 <= entry_fee,
            0 <= fee,
    ;
    lemma_mul_inequality(fee, FEE_DENOMINATOR as int, entry_fee);
    assert(entry_fee * fee <= entry_fee * 10000) by (nonlinear_arith)
        requires
            fee * entry_fee <= 10000 * entry_fee,
    ;
    lemma_div_is_ordered(0, entry_fee * fee, 10000);
    lemma_div_is_ordered(entry_fee * fee, entry_fee * 10000, 10000);
    lemma_fundamental_div_mod_converse(entry_fee * 10000, 10000, entry_fee, 0);
}

/// Splits an entry fee between the operator and the pot.
pub fn split_entry_fee(entry_fee: u64, fee: u16) -> (split: EntryFeeSplit)
    requires
        fee <= FEE_DENOMINATOR,
    ensures
        split.protocol_share == protocol_share(entry_fee as int, fee as int),
        split.pot_share == pot_share(entry_fee as int, fee as int),
        split.protocol_share + split.pot_share == entry_fee,
{
    proof {
        lemma_fee_split_is_exact(entry_fee as int, fee as int);
        assert(entry_fee * fee <= 0xffff_ffff_ffff_ffff * 10000) by (nonlinear_arith)
            requires
                0 <= entry_fee <= 0xffff_ffff_ffff_ffff,
                0 <= fee <= 10000,
        ;
    }
    let kept: u128 = (entry_fee as u128) * (fee as u128) / (FEE_DENOMINATOR as u128);
    let protocol_share: u64 = kept as u64;
    EntryFeeSplit { protocol_share, pot_share: entry_fee - protocol_share }
}

} // verus!

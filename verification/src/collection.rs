//! Collection membership: what a battleground asks of a collectible, what
//! a collectible declares, and whether the one meets the other.

use vstd::prelude::*;

use crate::keccak::{hash, keccak_hash};
use crate::merkle::{merkle_root, verify_proof};
use crate::pubkey::Pubkey;

verus! {

/// Longest collection symbol, in bytes.
pub const MAX_SYMBOL_BYTES: usize = 32;

/// Most creators a collection criterion may accept.
pub const MAX_VERIFIED_CREATORS: usize = 5;

/// Bytes of a string in its UTF-8 encoding.
pub open spec fn utf8_bytes(text: Seq<char>) -> Seq<u8> {
    vstd::utf8::encode_utf8(text)
}

/// What a collectible must show to enter a battleground.
#[derive(Clone, Debug, PartialEq, Eq)]
pub enum CollectionInfo {
    /// The collectible carries this symbol, was made by one of these
    /// creators, and is on the whitelist with this Merkle root.
    V1 { symbol: String, verified_creators: Vec<Pubkey>, whitelist_root: [u8; 32] },
    /// The collectible is a verified member of this collection.
    V2 { collection_mint: Pubkey },
}

/// One of the makers a collectible names, and whether that maker has
/// confirmed it.
#[derive(Clone, Copy, Debug, PartialEq, Eq)]
pub struct Creator {
    pub address: Pubkey,
    pub verified: bool,
}

/// The collection a collectible says it belongs to, and whether the
/// collection has confirmed it.
#[derive(Clone, Copy, Debug, PartialEq, Eq)]
pub struct Collection {
    pub verified: bool,
    pub key: Pubkey,
}

/// What the registry of collectibles declares about one of them.
#[derive(Clone, Debug, PartialEq, Eq)]
pub struct NftMetadata {
    pub mint: Pubkey,
    pub symbol: String,
    pub creators: Option<Vec<Creator>>,
    pub collection: Option<Collection>,
}

impl CollectionInfo {
    /// A symbol of at most 32 bytes and one to five accepted creators.
    pub open spec fn wf(self) -> bool {
        match self {
            CollectionInfo::V1 { symbol, verified_creators, whitelist_root } => {
                &&& utf8_bytes(symbol@).len() <= MAX_SYMBOL_BYTES
                &&& 1 <= verified_creators@.len() <= MAX_VERIFIED_CREATORS
            },
            CollectionInfo::V2 { collection_mint } => true,
        }
    }

    /// Tests `wf`.
    pub fn is_valid(&self) -> (valid: bool)
        ensures
            valid == self.wf(),
    {
        match self {
            CollectionInfo::V1 { symbol, verified_creators, whitelist_root } => {
                symbol.as_str().as_bytes().len() <= MAX_SYMBOL_BYTES && 1 <= verified_creators.len()
                    && verified_creators.len() <= MAX_VERIFIED_CREATORS
            },
            CollectionInfo::V2 { collection_mint } => true,
        }
    }
}

/// A byte string without the zero bytes it starts with.
pub open spec fn trim_leading_nul(bytes: Seq<u8>) -> Seq<u8>
    decreases bytes.len(),
{
    if bytes.len() > 0 && bytes.first() == 0 {
        trim_leading_nul(bytes.drop_first())
    } else {
        bytes
    }
}

/// A byte string without the zero bytes it ends with.
pub open spec fn trim_trailing_nul(bytes: Seq<u8>) -> Seq<u8>
    decreases bytes.len(),
{
    if bytes.len() > 0 && bytes.last() == 0 {
        trim_trailing_nul(bytes.drop_last())
    } else {
        bytes
    }
}

/// A byte string without its zero padding at either end.
pub open spec fn trim_nul(bytes: Seq<u8>) -> Seq<u8> {
    trim_trailing_nul(trim_leading_nul(bytes))
}

/// Where the first `start` bytes are zero and the next is not, trimming
/// the front removes exactly those.
pub proof fn lemma_trim_leading_nul(bytes: Seq<u8>, start: int)
    requires
        0 <= start <= bytes.len(),
        forall|j: int| 0 <= j < start ==> bytes[j] == 0,
        start < bytes.len() ==> bytes[start] != 0,
    ensures
        trim_leading_nul(bytes) == bytes.skip(start),
    decreases start,
{
    if start == 0 {
        assert(bytes.skip(0) =~= bytes);
    } else {
        lemma_trim_leading_nul(bytes.drop_first(), start - 1);
        assert(bytes.drop_first().skip(start - 1) =~= bytes.skip(start));
    }
}

/// Where the bytes from `end` on are zero and the one before is not,
/// trimming the back removes exactly those.
pub proof fn lemma_trim_trailing_nul(bytes: Seq<u8>, end: int)
    requires
        0 <= end <= bytes.len(),
        forall|j: int| end <= j < bytes.len() ==> bytes[j] == 0,
        0 < end ==> bytes[end - 1] != 0,
    ensures
        trim_trailing_nul(bytes) == bytes.take(end),
    decreases bytes.len() - end,
{
    if end == bytes.len() {
        assert(bytes.take(end) =~= bytes);
    } else {
        lemma_trim_trailing_nul(bytes.drop_last(), end);
        assert(bytes.drop_last().take(end) =~= bytes.take(end));
    }
}

/// Whether the symbol a collectible declares, without its zero padding, is
/// the expected one.
pub open spec fn symbol_matches(declared: Seq<char>, expected: Seq<char>) -> bool {
    trim_nul(utf8_bytes(declared)) == utf8_bytes(expected)
}

/// Whether `bytes`, without its zero padding, is `wanted`.
pub fn trimmed_equals(bytes: &[u8], wanted: &[u8]) -> (same: bool)
    ensures
        same == (trim_nul(bytes@) == wanted@),
{
    let mut start: usize = 0;
    while start < bytes.len() && bytes[start] == 0
        invariant
            start <= bytes.len(),
            forall|j: int| 0 <= j < start ==> bytes@[j] == 0,
        decreases bytes.len() - start,
    {
        start += 1;
    }
    let mut end: usize = bytes.len();
    while end > start && bytes[end - 1] == 0
        invariant
            start <= end <= bytes.len(),
            forall|j: int| end <= j < bytes.len() ==> bytes@[j] == 0,
        decreases end,
    {
        end -= 1;
    }
    proof {
        lemma_trim_leading_nul(bytes@, start as int);
        lemma_trim_trailing_nul(bytes@.skip(start as int), end - start);
        assert(bytes@.skip(start as int).take(end - start) =~= bytes@.subrange(
            start as int,
            end as int,
        ));
    }
    if end - start != wanted.len() {
        return false;
    }
    let mut i: usize = 0;
    while i < wanted.len()
        invariant
            start <= end <= bytes.len(),
            end - start == wanted.len(),
            i <= wanted.len(),
            trim_nul(bytes@) == bytes@.subrange(start as int, end as int),
            forall|j: int| 0 <= j < i ==> bytes@[start + j] == wanted@[j],
        decreases wanted.len() - i,
    {
        if bytes[start + i] != wanted[i] {
            assert(bytes@.subrange(start as int, end as int)[i as int] != wanted@[i as int]);
            return false;
        }
        i += 1;
    }
    assert(bytes@.subrange(start as int, end as int) =~= wanted@);
    true
}

/// Tests `symbol_matches`.
pub fn symbol_is(declared: &String, expected: &String) -> (matches: bool)
    ensures
        matches == symbol_matches(declared@, expected@),
{
    trimmed_equals(declared.as_str().as_bytes(), expected.as_str().as_bytes())
}

/// Whether one of the creators a collectible names has confirmed it and is
/// among the accepted ones.
pub open spec fn creator_accepted(creators: Seq<Creator>, accepted: Seq<Pubkey>) -> bool {
    exists|i: int, j: int|
        0 <= i < creators.len() && 0 <= j < accepted.len() && (#[trigger] creators[i]).verified
            && creators[i].address == #[trigger] accepted[j]
}

/// Whether the key is one of the accepted ones.
pub fn is_accepted(address: &Pubkey, accepted: &Vec<Pubkey>) -> (found: bool)
    ensures
        found == exists|j: int| 0 <= j < accepted@.len() && *address == #[trigger] accepted@[j],
{
    let mut j: usize = 0;
    while j < accepted.len()
        invariant
            j <= accepted.len(),
            forall|k: int| 0 <= k < j ==> *address != #[trigger] accepted@[k],
        decreases accepted.len() - j,
    {
        if *address == accepted[j] {
            return true;
        }
        j += 1;
    }
    false
}

/// Tests `creator_accepted`.
pub fn has_accepted_creator(creators: &Vec<Creator>, accepted: &Vec<Pubkey>) -> (found: bool)
    ensures
        found == creator_accepted(creators@, accepted@),
{
    let mut i: usize = 0;
    while i < creators.len()
        invariant
            i <= creators.len(),
            forall|k: int, j: int|
                0 <= k < i && 0 <= j < accepted@.len() ==> !((#[trigger] creators@[k]).verified
                    && creators@[k].address == #[trigger] accepted@[j]),
        decreases creators.len() - i,
    {
        if creators[i].verified && is_accepted(&creators[i].address, accepted) {
            return true;
        }
        i += 1;
    }
    false
}

/// Whether the proof path leads from the hash of the collectible's key to
/// the whitelist root.
pub open spec fn whitelisted(mint: Pubkey, whitelist_root: [u8; 32], proof: Seq<[u8; 32]>) -> bool {
    merkle_root(proof, keccak_hash(mint.bytes@)) == whitelist_root@
}

/// Whether a V1 collectible has shown that it is on the whitelist: it has
/// brought a proof and the proof holds. No other criterion has a
/// whitelist.
pub open spec fn on_whitelist(
    metadata: NftMetadata,
    collection_info: CollectionInfo,
    whitelist_proof: Option<Vec<[u8; 32]>>,
) -> bool {
    match (collection_info, whitelist_proof) {
        (CollectionInfo::V1 { symbol, verified_creators, whitelist_root }, Some(proof)) => {
            whitelisted(metadata.mint, whitelist_root, proof@)
        },
        _ => false,
    }
}

/// Whether a collectible that is or is not on the whitelist meets the
/// criterion. V1 asks for the symbol, an accepted creator that has
/// confirmed it, and the whitelist. V2 asks for confirmed membership in the
/// collection, and for nothing else.
pub open spec fn meets_criterion(
    metadata: NftMetadata,
    collection_info: CollectionInfo,
    in_whitelist: bool,
) -> bool {
    match collection_info {
        CollectionInfo::V1 { symbol, verified_creators, whitelist_root } => {
            &&& symbol_matches(metadata.symbol@, symbol@)
            &&& metadata.creators matches Some(creators) && creator_accepted(
                creators@,
                verified_creators@,
            )
            &&& in_whitelist
        },
        CollectionInfo::V2 { collection_mint } => {
            metadata.collection matches Some(collection) && collection.key == collection_mint
                && collection.verified
        },
    }
}

/// Whether the collectible belongs to the collection.
pub open spec fn collection_verified(
    metadata: NftMetadata,
    collection_info: CollectionInfo,
    whitelist_proof: Option<Vec<[u8; 32]>>,
) -> bool {
    meets_criterion(
        metadata,
        collection_info,
        on_whitelist(metadata, collection_info, whitelist_proof),
    )
}

/// Decides membership for a collectible whose whitelist check has come out
/// as `in_whitelist`.
pub fn check_criterion(
    metadata: &NftMetadata,
    collection_info: &CollectionInfo,
    in_whitelist: bool,
) -> (member: bool)
    ensures
        member == meets_criterion(*metadata, *collection_info, in_whitelist),
{
    match collection_info {
        CollectionInfo::V1 { symbol, verified_creators, whitelist_root } => {
            let valid_symbol = symbol_is(&metadata.symbol, symbol);
            let valid_creator = match &metadata.creators {
                Some(creators) => has_accepted_creator(creators, verified_creators),
                None => false,
            };
            valid_symbol && valid_creator && in_whitelist
        },
        CollectionInfo::V2 { collection_mint } => match &metadata.collection {
            None => false,
            Some(collection) => collection.key == *collection_mint && collection.verified,
        },
    }
}

/// Verifies that the collectible belongs to the collection.
pub fn verify_collection(
    metadata: &NftMetadata,
    collection_info: &CollectionInfo,
    whitelist_proof: Option<Vec<[u8; 32]>>,
) -> (member: bool)
    ensures
        member == collection_verified(*metadata, *collection_info, whitelist_proof),
{
    let in_whitelist = match collection_info {
        CollectionInfo::V1 { symbol, verified_creators, whitelist_root } => match whitelist_proof {
            Some(proof) => {
                let leaf = hash(&metadata.mint.bytes);
                verify_proof(proof, *whitelist_root, leaf)
            },
            None => false,
        },
        CollectionInfo::V2 { collection_mint } => false,
    };
    check_criterion(metadata, collection_info, in_whitelist)
}

} // verus!

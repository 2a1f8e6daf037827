//! The record shapes persisted by the bridge programs.

use vstd::prelude::*;

verus! {

/// Per-asset provenance record: the local asset handle bound to a
/// (origin chain, origin contract, asset id) key.
pub struct NftInfoInBridge {
    /// The local mint address of the asset held for this key.
    pub mint_address: Vec<u8>,
}

/// Per-collection provenance record.
pub struct CollectionInfo {
    /// Chain the collection originates from.
    pub origin_chain: Vec<u8>,
    /// Contract address of the collection on its origin chain.
    pub origin_contract_address: Vec<u8>,
}

/// A token holding on the local ledger: the mint it belongs to and the
/// number of units it currently holds.
pub struct TokenAccount {
    /// Mint address of the asset held.
    pub mint: Vec<u8>,
    /// Units currently held.
    pub balance: u64,
}

/// Descriptive metadata attached to a mirror asset.
pub struct MetadataFields {
    pub uri: Vec<u8>,
    pub name: Vec<u8>,
    pub symbol: Vec<u8>,
}

/// The contents of an optional metadata record, for comparing records field
/// by field.
pub open spec fn meta_view(m: Option<MetadataFields>) -> Option<(Seq<u8>, Seq<u8>, Seq<u8>)> {
    match m {
        Some(f) => Some((f.uri@, f.name@, f.symbol@)),
        None => None,
    }
}

/// The mirror asset minted for a foreign collection, together with the
/// descriptors attached to it.
pub struct MirrorCollection {
    /// Outstanding units of the collection asset; never exceeds one.
    pub units: u64,
    /// Descriptive metadata, once attached.
    pub metadata: Option<MetadataFields>,
    /// Whether the master-edition descriptor exists (supply frozen at one).
    pub has_master_edition: bool,
    /// Whether the designated creator has signed the metadata.
    pub creator_signed: bool,
    /// Whether the asset is marked as a sized-collection container.
    pub is_sized: bool,
}

/// A mirror asset minted for a foreign item under a mirror collection's
/// authority.
pub struct MirrorItem {
    /// Origin chain of the collection the item was minted under.
    pub collection_chain: Vec<u8>,
    /// Origin contract of the collection the item was minted under.
    pub collection_contract: Vec<u8>,
    /// Outstanding units of the item asset; never exceeds one.
    pub units: u64,
    /// Descriptive metadata attached at mint time.
    pub metadata: Option<MetadataFields>,
    /// Whether the master-edition descriptor exists.
    pub has_master_edition: bool,
    /// Whether membership in the mirror collection has been verified.
    pub verified: bool,
}

} // verus!

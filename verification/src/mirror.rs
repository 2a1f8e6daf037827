//! The mirror-mint half of the state machine: minting a unit-supply mirror
//! asset for a foreign collection, attaching and signing its descriptive
//! metadata, minting mirror items under the collection controller's derived
//! authority, and verifying an item's membership.
//!
//! Every operation short-circuits to a no-op when the recorded origin chain
//! is the native chain: a native collection needs no mirror.

use vstd::prelude::*;
use crate::error::BridgeError;
use crate::keys::{seed_len_ok, pair_key, make_pair_key, native_chain, is_native_chain};
use crate::records::{MetadataFields, MirrorCollection, MirrorItem, TokenAccount, meta_view};
use crate::state::Bridge;
use crate::bytes::{bytes_eq, clone_bytes};

verus! {

impl Bridge {
    /// Whether the recorded origin of (chain, contract) is the native chain.
    pub open spec fn collection_is_native(self, chain: Seq<u8>, contract: Seq<u8>) -> bool {
        self.info_at(pair_key(chain, contract)) matches Some(c) && c.origin_chain@
            == native_chain()
    }
}

/// How the first phase of mirror-collection creation ends. Success is owed
/// exactly when the administrator signs, the seeds fit the derivation
/// limits, the collection's origin is recorded, and — unless the origin is
/// native, where the call is a no-op — no unit of the mirror asset is
/// outstanding yet.
pub open spec fn create_collection_outcome(
    pre: Bridge,
    chain: Seq<u8>,
    contract: Seq<u8>,
    signer: Seq<u8>,
) -> Result<(), BridgeError> {
    if signer != pre.admin@ {
        Err(BridgeError::AuthorityError)
    } else if !seed_len_ok(chain, contract) {
        Err(BridgeError::MalformedInput)
    } else if pre.info_at(pair_key(chain, contract)) is None {
        Err(BridgeError::NotFound)
    } else if pre.collection_is_native(chain, contract) {
        Ok(())
    } else if pre.mirror_units(chain, contract) != 0 {
        Err(BridgeError::InvariantViolation)
    } else {
        Ok(())
    }
}

/// What the first creation phase changes when the origin is foreign: exactly
/// one unit of the mirror asset exists, with no descriptors yet.
pub open spec fn create_collection_effect(
    pre: Bridge,
    post: Bridge,
    chain: Seq<u8>,
    contract: Seq<u8>,
) -> bool {
    &&& (post.mirror_at(pair_key(chain, contract)) matches Some(m) && m.units == 1 && m.metadata
        is None && !m.has_master_edition && !m.creator_signed && !m.is_sized)
    &&& forall|k: Seq<u8>| k != pair_key(chain, contract) ==> post.mirror_at(k) == pre.mirror_at(k)
    &&& post.admin == pre.admin
    &&& post.root_initialized == pre.root_initialized
    &&& post.slots == pre.slots
    &&& post.nft_records == pre.nft_records
    &&& post.collection_infos == pre.collection_infos
    &&& post.mirror_items == pre.mirror_items
    &&& post.token_accounts == pre.token_accounts
    &&& post.lamports == pre.lamports
}

/// How the second phase — attaching metadata, the master edition, the sized
/// marker and the creator's signature — ends. It demands a minted,
/// not-yet-described mirror asset.
pub open spec fn describe_collection_outcome(
    pre: Bridge,
    chain: Seq<u8>,
    contract: Seq<u8>,
    signer: Seq<u8>,
) -> Result<(), BridgeError> {
    if signer != pre.admin@ {
        Err(BridgeError::AuthorityError)
    } else if !seed_len_ok(chain, contract) {
        Err(BridgeError::MalformedInput)
    } else if pre.info_at(pair_key(chain, contract)) is None {
        Err(BridgeError::NotFound)
    } else if pre.mirror_at(pair_key(chain, contract)) is None {
        Err(BridgeError::NotFound)
    } else if pre.mirror_units(chain, contract) != 1 {
        Err(BridgeError::InvariantViolation)
    } else if (pre.mirror_at(pair_key(chain, contract)) matches Some(m) && m.metadata is Some) {
        Err(BridgeError::InvariantViolation)
    } else {
        Ok(())
    }
}

/// What the second creation phase changes: the mirror asset carries the
/// given descriptors, is a signed, sized collection container, and its
/// supply is frozen at one.
pub open spec fn describe_collection_effect(
    pre: Bridge,
    post: Bridge,
    chain: Seq<u8>,
    contract: Seq<u8>,
    uri: Seq<u8>,
    name: Seq<u8>,
    symbol: Seq<u8>,
) -> bool {
    &&& (post.mirror_at(pair_key(chain, contract)) matches Some(m) && m.units == 1
        && meta_view(m.metadata) == Some((uri, name, symbol)) && m.has_master_edition
        && m.creator_signed && m.is_sized)
    &&& forall|k: Seq<u8>| k != pair_key(chain, contract) ==> post.mirror_at(k) == pre.mirror_at(k)
    &&& post.admin == pre.admin
    &&& post.root_initialized == pre.root_initialized
    &&& post.slots == pre.slots
    &&& post.nft_records == pre.nft_records
    &&& post.collection_infos == pre.collection_infos
    &&& post.mirror_items == pre.mirror_items
    &&& post.token_accounts == pre.token_accounts
    &&& post.lamports == pre.lamports
}

/// How minting a mirror item ends. It demands the collection's origin
/// record and minted mirror asset, a fresh item mint, and a receiving
/// holding compatible with that mint; when the origin is native it is a
/// no-op.
pub open spec fn create_item_outcome(
    pre: Bridge,
    chain: Seq<u8>,
    contract: Seq<u8>,
    item_mint: Seq<u8>,
    receiver: Seq<u8>,
    signer: Seq<u8>,
) -> Result<(), BridgeError> {
    if signer != pre.admin@ {
        Err(BridgeError::AuthorityError)
    } else if !seed_len_ok(chain, contract) {
        Err(BridgeError::MalformedInput)
    } else if pre.info_at(pair_key(chain, contract)) is None {
        Err(BridgeError::NotFound)
    } else if pre.collection_is_native(chain, contract) {
        Ok(())
    } else if pre.mirror_at(pair_key(chain, contract)) is None {
        Err(BridgeError::NotFound)
    } else if pre.item_at(item_mint) is Some {
        Err(BridgeError::InvariantViolation)
    } else if (pre.tok_at(receiver) matches Some(t) && t.mint@ != item_mint) {
        Err(BridgeError::MalformedInput)
    } else if pre.token_balance(receiver) == u64::MAX {
        Err(BridgeError::InvariantViolation)
    } else {
        Ok(())
    }
}

/// What minting a mirror item changes when the origin is foreign: the item
/// exists with one unit, described but unverified, and the unit sits in the
/// receiver's holding.
pub open spec fn create_item_effect(
    pre: Bridge,
    post: Bridge,
    chain: Seq<u8>,
    contract: Seq<u8>,
    item_mint: Seq<u8>,
    receiver: Seq<u8>,
    uri: Seq<u8>,
    name: Seq<u8>,
    symbol: Seq<u8>,
) -> bool {
    &&& (post.item_at(item_mint) matches Some(i) && i.collection_chain@ == chain
        && i.collection_contract@ == contract && i.units == 1 && meta_view(i.metadata) == Some(
        (uri, name, symbol),
    ) && i.has_master_edition && !i.verified)
    &&& forall|k: Seq<u8>| k != item_mint ==> post.item_at(k) == pre.item_at(k)
    &&& (post.tok_at(receiver) matches Some(t) && t.mint@ == item_mint && t.balance
        == pre.token_balance(receiver) + 1)
    &&& forall|k: Seq<u8>| k != receiver ==> post.tok_at(k) == pre.tok_at(k)
    &&& post.admin == pre.admin
    &&& post.root_initialized == pre.root_initialized
    &&& post.slots == pre.slots
    &&& post.nft_records == pre.nft_records
    &&& post.collection_infos == pre.collection_infos
    &&& post.mirror_collections == pre.mirror_collections
    &&& post.lamports == pre.lamports
}

/// How membership verification ends. It demands the collection's origin
/// record, a fully described sized mirror collection, and an unverified item
/// whose collection reference matches; when the origin is native it is a
/// no-op.
pub open spec fn verify_item_outcome(
    pre: Bridge,
    chain: Seq<u8>,
    contract: Seq<u8>,
    item_mint: Seq<u8>,
    signer: Seq<u8>,
) -> Result<(), BridgeError> {
    if signer != pre.admin@ {
        Err(BridgeError::AuthorityError)
    } else if !seed_len_ok(chain, contract) {
        Err(BridgeError::MalformedInput)
    } else if pre.info_at(pair_key(chain, contract)) is None {
        Err(BridgeError::NotFound)
    } else if pre.collection_is_native(chain, contract) {
        Ok(())
    } else if pre.mirror_at(pair_key(chain, contract)) is None {
        Err(BridgeError::NotFound)
    } else if !(pre.mirror_at(pair_key(chain, contract)) matches Some(m) && m.metadata is Some
        && m.has_master_edition && m.is_sized) {
        Err(BridgeError::MalformedInput)
    } else if pre.item_at(item_mint) is None {
        Err(BridgeError::NotFound)
    } else if !(pre.item_at(item_mint) matches Some(i) && i.collection_chain@ == chain
        && i.collection_contract@ == contract) {
        Err(BridgeError::MalformedInput)
    } else if (pre.item_at(item_mint) matches Some(i) && i.verified) {
        Err(BridgeError::InvariantViolation)
    } else {
        Ok(())
    }
}

/// What a successful verification changes when the origin is foreign:
/// exactly the item's verified mark.
pub open spec fn verify_item_effect(
    pre: Bridge,
    post: Bridge,
    item_mint: Seq<u8>,
) -> bool {
    &&& (pre.item_at(item_mint) matches Some(i1) && post.item_at(item_mint) matches Some(i2)
        && i2.collection_chain@ == i1.collection_chain@ && i2.collection_contract@
        == i1.collection_contract@ && i2.units == i1.units && meta_view(i2.metadata) == meta_view(
        i1.metadata,
    ) && i2.has_master_edition == i1.has_master_edition && i2.verified)
    &&& forall|k: Seq<u8>| k != item_mint ==> post.item_at(k) == pre.item_at(k)
    &&& post.admin == pre.admin
    &&& post.root_initialized == pre.root_initialized
    &&& post.slots == pre.slots
    &&& post.nft_records == pre.nft_records
    &&& post.collection_infos == pre.collection_infos
    &&& post.mirror_collections == pre.mirror_collections
    &&& post.token_accounts == pre.token_accounts
    &&& post.lamports == pre.lamports
}

impl Bridge {
    /// First phase of mirror-collection creation: mints one unit of the
    /// mirror asset under the collection controller's derived authority, or
    /// does nothing when the collection is native to the local chain.
    pub fn create_collection_nft(
        &mut self,
        origin_chain: &Vec<u8>,
        origin_contract_address: &Vec<u8>,
        signer: &Vec<u8>,
    ) -> (r: Result<(), BridgeError>)
        ensures
            r == create_collection_outcome(
                *old(self),
                origin_chain@,
                origin_contract_address@,
                signer@,
            ),
            r is Err ==> *final(self) == *old(self),
            r is Ok && old(self).collection_is_native(origin_chain@, origin_contract_address@)
                ==> *final(self) == *old(self),
            r is Ok && !old(self).collection_is_native(origin_chain@, origin_contract_address@)
                ==> create_collection_effect(
                *old(self),
                *final(self),
                origin_chain@,
                origin_contract_address@,
            ),
    {
        if !bytes_eq(signer, &self.admin) {
            return Err(BridgeError::AuthorityError);
        }
        if origin_chain.len() > crate::keys::MAX_SEED_LEN || origin_contract_address.len()
            > crate::keys::MAX_SEED_LEN {
            return Err(BridgeError::MalformedInput);
        }
        let kp = make_pair_key(origin_chain, origin_contract_address);
        match self.collection_infos.get(&kp) {
            Some(c) => {
                if is_native_chain(&c.origin_chain) {
                    return Ok(());
                }
            },
            None => {
                return Err(BridgeError::NotFound);
            },
        }
        match self.mirror_collections.get(&kp) {
            Some(m) => {
                if m.units != 0 {
                    return Err(BridgeError::InvariantViolation);
                }
            },
            None => {},
        }
        let minted = MirrorCollection {
            units: 1,
            metadata: None,
            has_master_edition: false,
            creator_signed: false,
            is_sized: false,
        };
        self.mirror_collections.set(kp, minted);
        Ok(())
    }

    /// Second phase of mirror-collection creation: attaches the descriptive
    /// metadata, creates the master edition (freezing supply at one), marks
    /// the asset a sized collection container, and records the designated
    /// creator's signature on the metadata.
    pub fn create_collection_nft2(
        &mut self,
        uri: &Vec<u8>,
        name: &Vec<u8>,
        symbol: &Vec<u8>,
        origin_chain: &Vec<u8>,
        origin_contract_address: &Vec<u8>,
        signer: &Vec<u8>,
    ) -> (r: Result<(), BridgeError>)
        ensures
            r == describe_collection_outcome(
                *old(self),
                origin_chain@,
                origin_contract_address@,
                signer@,
            ),
            r is Err ==> *final(self) == *old(self),
            r is Ok ==> describe_collection_effect(
                *old(self),
                *final(self),
                origin_chain@,
                origin_contract_address@,
                uri@,
                name@,
                symbol@,
            ),
    {
        if !bytes_eq(signer, &self.admin) {
            return Err(BridgeError::AuthorityError);
        }
        if origin_chain.len() > crate::keys::MAX_SEED_LEN || origin_contract_address.len()
            > crate::keys::MAX_SEED_LEN {
            return Err(BridgeError::MalformedInput);
        }
        let kp = make_pair_key(origin_chain, origin_contract_address);
        if self.collection_infos.get(&kp).is_none() {
            return Err(BridgeError::NotFound);
        }
        match self.mirror_collections.get(&kp) {
            Some(m) => {
                if m.units != 1 {
                    return Err(BridgeError::InvariantViolation);
                }
                if m.metadata.is_some() {
                    return Err(BridgeError::InvariantViolation);
                }
            },
            None => {
                return Err(BridgeError::NotFound);
            },
        }
        let described = MirrorCollection {
            units: 1,
            metadata: Some(
                MetadataFields {
                    uri: clone_bytes(uri),
                    name: clone_bytes(name),
                    symbol: clone_bytes(symbol),
                },
            ),
            has_master_edition: true,
            creator_signed: true,
            is_sized: true,
        };
        self.mirror_collections.set(kp, described);
        Ok(())
    }

    /// Mints one unit of a new mirror item asset into the receiver's
    /// holding, under the collection controller's derived authority, and
    /// attaches its descriptive metadata (membership still unverified); a
    /// no-op when the collection is native.
    pub fn create_nft_in_collection(
        &mut self,
        uri: &Vec<u8>,
        name: &Vec<u8>,
        symbol: &Vec<u8>,
        origin_chain: &Vec<u8>,
        origin_contract_address: &Vec<u8>,
        nft_mint: &Vec<u8>,
        receiver_token_account: &Vec<u8>,
        signer: &Vec<u8>,
    ) -> (r: Result<(), BridgeError>)
        ensures
            r == create_item_outcome(
                *old(self),
                origin_chain@,
                origin_contract_address@,
                nft_mint@,
                receiver_token_account@,
                signer@,
            ),
            r is Err ==> *final(self) == *old(self),
            r is Ok && old(self).collection_is_native(origin_chain@, origin_contract_address@)
                ==> *final(self) == *old(self),
            r is Ok && !old(self).collection_is_native(origin_chain@, origin_contract_address@)
                ==> create_item_effect(
                *old(self),
                *final(self),
                origin_chain@,
                origin_contract_address@,
                nft_mint@,
                receiver_token_account@,
                uri@,
                name@,
                symbol@,
            ),
    {
        if !bytes_eq(signer, &self.admin) {
            return Err(BridgeError::AuthorityError);
        }
        if origin_chain.len() > crate::keys::MAX_SEED_LEN || origin_contract_address.len()
            > crate::keys::MAX_SEED_LEN {
            return Err(BridgeError::MalformedInput);
        }
        let kp = make_pair_key(origin_chain, origin_contract_address);
        match self.collection_infos.get(&kp) {
            Some(c) => {
                if is_native_chain(&c.origin_chain) {
                    return Ok(());
                }
            },
            None => {
                return Err(BridgeError::NotFound);
            },
        }
        if self.mirror_collections.get(&kp).is_none() {
            return Err(BridgeError::NotFound);
        }
        if self.mirror_items.get(nft_mint).is_some() {
            return Err(BridgeError::InvariantViolation);
        }
        let receiver_balance: u64;
        match self.token_accounts.get(receiver_token_account) {
            Some(t) => {
                if !bytes_eq(&t.mint, nft_mint) {
                    return Err(BridgeError::MalformedInput);
                }
                receiver_balance = t.balance;
            },
            None => {
                receiver_balance = 0;
            },
        }
        if receiver_balance == u64::MAX {
            return Err(BridgeError::InvariantViolation);
        }
        let item = MirrorItem {
            collection_chain: clone_bytes(origin_chain),
            collection_contract: clone_bytes(origin_contract_address),
            units: 1,
            metadata: Some(
                MetadataFields {
                    uri: clone_bytes(uri),
                    name: clone_bytes(name),
                    symbol: clone_bytes(symbol),
                },
            ),
            has_master_edition: true,
            verified: false,
        };
        self.mirror_items.set(clone_bytes(nft_mint), item);
        let received = TokenAccount { mint: clone_bytes(nft_mint), balance: receiver_balance + 1 };
        self.token_accounts.set(clone_bytes(receiver_token_account), received);
        Ok(())
    }

    /// Asserts, under the collection controller's derived authority, that
    /// the item's collection reference matches the mirror collection, and
    /// marks the item verified; a no-op when the collection is native.
    pub fn verify_nft_in_collection(
        &mut self,
        origin_chain: &Vec<u8>,
        origin_contract_address: &Vec<u8>,
        nft_mint: &Vec<u8>,
        signer: &Vec<u8>,
    ) -> (r: Result<(), BridgeError>)
        ensures
            r == verify_item_outcome(
                *old(self),
                origin_chain@,
                origin_contract_address@,
                nft_mint@,
                signer@,
            ),
            r is Err ==> *final(self) == *old(self),
            r is Ok && old(self).collection_is_native(origin_chain@, origin_contract_address@)
                ==> *final(self) == *old(self),
            r is Ok && !old(self).collection_is_native(origin_chain@, origin_contract_address@)
                ==> verify_item_effect(*old(self), *final(self), nft_mint@),
    {
        if !bytes_eq(signer, &self.admin) {
            return Err(BridgeError::AuthorityError);
        }
        if origin_chain.len() > crate::keys::MAX_SEED_LEN || origin_contract_address.len()
            > crate::keys::MAX_SEED_LEN {
            return Err(BridgeError::MalformedInput);
        }
        let kp = make_pair_key(origin_chain, origin_contract_address);
        match self.collection_infos.get(&kp) {
            Some(c) => {
                if is_native_chain(&c.origin_chain) {
                    return Ok(());
                }
            },
            None => {
                return Err(BridgeError::NotFound);
            },
        }
        match self.mirror_collections.get(&kp) {
            Some(m) => {
                if m.metadata.is_none() || !m.has_master_edition || !m.is_sized {
                    return Err(BridgeError::MalformedInput);
                }
            },
            None => {
                return Err(BridgeError::NotFound);
            },
        }
        let updated: MirrorItem;
        match self.mirror_items.get(nft_mint) {
            Some(i) => {
                if !bytes_eq(&i.collection_chain, origin_chain) || !bytes_eq(
                    &i.collection_contract,
                    origin_contract_address,
                ) {
                    return Err(BridgeError::MalformedInput);
                }
                if i.verified {
                    return Err(BridgeError::InvariantViolation);
                }
                updated = MirrorItem {
                    collection_chain: clone_bytes(&i.collection_chain),
                    collection_contract: clone_bytes(&i.collection_contract),
                    units: i.units,
                    metadata: match &i.metadata {
                        Some(f) => Some(
                            MetadataFields {
                                uri: clone_bytes(&f.uri),
                                name: clone_bytes(&f.name),
                                symbol: clone_bytes(&f.symbol),
                            },
                        ),
                        None => None,
                    },
                    has_master_edition: i.has_master_edition,
                    verified: true,
                };
            },
            None => {
                return Err(BridgeError::NotFound);
            },
        }
        self.mirror_items.set(clone_bytes(nft_mint), updated);
        Ok(())
    }
}

} // verus!

//! The bridge's persisted state and the escrow half of its state machine:
//! initializing the escrow root, locking an asset into its custody slot,
//! releasing it again, and (re)binding per-asset provenance records.
//!
//! Each request either commits all of its effects or returns an error and
//! leaves the state exactly as it was.

use vstd::prelude::*;
use crate::bytemap::ByteMap;
use crate::error::BridgeError;
use crate::keys::{seed_len_ok, pair_key, triple_key, make_pair_key, make_triple_key};
use crate::records::{NftInfoInBridge, CollectionInfo, TokenAccount, MirrorCollection, MirrorItem};
use crate::bytes::{bytes_eq, clone_bytes};

verus! {

/// All state owned by the bridge deployment: the escrow root flag, the
/// custody slots and provenance records of the escrow program, the
/// provenance records and mirror assets of the collection program, and the
/// token and lamport holdings the requests move value between.
pub struct Bridge {
    /// Identity allowed to perform administrator-gated requests.
    pub admin: Vec<u8>,
    /// Whether the escrow root account has been created.
    pub root_initialized: bool,
    /// Custody slots, keyed by `triple_key` of (chain, contract, asset id).
    pub slots: ByteMap<TokenAccount>,
    /// Per-asset provenance records, keyed like the custody slots.
    pub nft_records: ByteMap<NftInfoInBridge>,
    /// Collection provenance records, keyed by `pair_key` of (chain, contract).
    pub collection_infos: ByteMap<CollectionInfo>,
    /// Mirror collection assets, keyed like the collection records.
    pub mirror_collections: ByteMap<MirrorCollection>,
    /// Mirror item assets, keyed by the item's mint address.
    pub mirror_items: ByteMap<MirrorItem>,
    /// Token holdings, keyed by holding address.
    pub token_accounts: ByteMap<TokenAccount>,
    /// Plain value balances, keyed by account address.
    pub lamports: ByteMap<u64>,
}

impl Bridge {
    /// The custody slot of an asset key, if it was ever created.
    pub open spec fn slot_at(self, k: Seq<u8>) -> Option<TokenAccount> {
        self.slots.spec_get(k)
    }

    /// Units held in custody for (chain, contract, id); zero while no slot
    /// exists.
    pub open spec fn custody_units(self, chain: Seq<u8>, contract: Seq<u8>, id: u64) -> u64 {
        match self.slot_at(triple_key(chain, contract, id)) {
            Some(t) => t.balance,
            None => 0,
        }
    }

    /// Mint bound to the custody slot of (chain, contract, id), if any.
    pub open spec fn custody_mint(self, chain: Seq<u8>, contract: Seq<u8>, id: u64) -> Option<
        Seq<u8>,
    > {
        match self.slot_at(triple_key(chain, contract, id)) {
            Some(t) => Some(t.mint@),
            None => None,
        }
    }

    /// The provenance record stored under an asset key, if any.
    pub open spec fn record_at(self, k: Seq<u8>) -> Option<NftInfoInBridge> {
        self.nft_records.spec_get(k)
    }

    /// Local mint recorded for (chain, contract, id), if any.
    pub open spec fn nft_record_mint(self, chain: Seq<u8>, contract: Seq<u8>, id: u64) -> Option<
        Seq<u8>,
    > {
        match self.record_at(triple_key(chain, contract, id)) {
            Some(n) => Some(n.mint_address@),
            None => None,
        }
    }

    /// The collection record stored under a collection key, if any.
    pub open spec fn info_at(self, k: Seq<u8>) -> Option<CollectionInfo> {
        self.collection_infos.spec_get(k)
    }

    /// The mirror collection stored under a collection key, if any.
    pub open spec fn mirror_at(self, k: Seq<u8>) -> Option<MirrorCollection> {
        self.mirror_collections.spec_get(k)
    }

    /// Outstanding units of the mirror collection asset of (chain, contract).
    pub open spec fn mirror_units(self, chain: Seq<u8>, contract: Seq<u8>) -> u64 {
        match self.mirror_at(pair_key(chain, contract)) {
            Some(m) => m.units,
            None => 0,
        }
    }

    /// The mirror item minted at `mint`, if any.
    pub open spec fn item_at(self, mint: Seq<u8>) -> Option<MirrorItem> {
        self.mirror_items.spec_get(mint)
    }

    /// The token holding at address `h`, if it exists.
    pub open spec fn tok_at(self, h: Seq<u8>) -> Option<TokenAccount> {
        self.token_accounts.spec_get(h)
    }

    /// Units held at `h`; zero if the holding does not exist.
    pub open spec fn token_balance(self, h: Seq<u8>) -> u64 {
        match self.tok_at(h) {
            Some(t) => t.balance,
            None => 0,
        }
    }

    /// Mint of the holding at `h`, if it exists.
    pub open spec fn token_mint(self, h: Seq<u8>) -> Option<Seq<u8>> {
        match self.tok_at(h) {
            Some(t) => Some(t.mint@),
            None => None,
        }
    }

    /// Lamport balance of account `a`; zero if it does not exist.
    pub open spec fn lamports_of(self, a: Seq<u8>) -> u64 {
        match self.lamports.spec_get(a) {
            Some(n) => n,
            None => 0,
        }
    }

    /// A fresh deployment: nothing persisted, nothing in custody.
    pub fn new(admin: Vec<u8>) -> (r: Bridge)
        ensures
            r.admin@ == admin@,
            !r.root_initialized,
            forall|k: Seq<u8>| #[trigger] r.slot_at(k) is None,
            forall|k: Seq<u8>| #[trigger] r.record_at(k) is None,
            forall|k: Seq<u8>| #[trigger] r.info_at(k) is None,
            forall|k: Seq<u8>| #[trigger] r.mirror_at(k) is None,
            forall|k: Seq<u8>| #[trigger] r.item_at(k) is None,
            forall|k: Seq<u8>| #[trigger] r.tok_at(k) is None,
            forall|k: Seq<u8>| #[trigger] r.lamports.spec_get(k) is None,
    {
        Bridge {
            admin,
            root_initialized: false,
            slots: ByteMap::new(),
            nft_records: ByteMap::new(),
            collection_infos: ByteMap::new(),
            mirror_collections: ByteMap::new(),
            mirror_items: ByteMap::new(),
            token_accounts: ByteMap::new(),
            lamports: ByteMap::new(),
        }
    }

    /// Creates or replaces a token holding. This models activity outside the
    /// bridge programs — a wallet receiving the asset it is about to lock —
    /// and stands in for the ledger's own account creation.
    pub fn fund_token_account(&mut self, holding: &Vec<u8>, mint: &Vec<u8>, balance: u64)
        ensures
            (final(self).tok_at(holding@) matches Some(t) && t.mint@ == mint@ && t.balance
                == balance),
            forall|k: Seq<u8>| k != holding@ ==> final(self).tok_at(k) == old(self).tok_at(k),
            final(self).admin == old(self).admin,
            final(self).root_initialized == old(self).root_initialized,
            final(self).slots == old(self).slots,
            final(self).nft_records == old(self).nft_records,
            final(self).collection_infos == old(self).collection_infos,
            final(self).mirror_collections == old(self).mirror_collections,
            final(self).mirror_items == old(self).mirror_items,
            final(self).lamports == old(self).lamports,
    {
        let t = TokenAccount { mint: clone_bytes(mint), balance };
        self.token_accounts.set(clone_bytes(holding), t);
    }

    /// Creates or replaces a plain value balance; models funding from
    /// outside the bridge programs.
    pub fn fund_lamports(&mut self, account: &Vec<u8>, balance: u64)
        ensures
            final(self).lamports_of(account@) == balance,
            forall|k: Seq<u8>| k != account@ ==> final(self).lamports.spec_get(k) == old(
                self,
            ).lamports.spec_get(k),
            final(self).admin == old(self).admin,
            final(self).root_initialized == old(self).root_initialized,
            final(self).slots == old(self).slots,
            final(self).nft_records == old(self).nft_records,
            final(self).collection_infos == old(self).collection_infos,
            final(self).mirror_collections == old(self).mirror_collections,
            final(self).mirror_items == old(self).mirror_items,
            final(self).token_accounts == old(self).token_accounts,
    {
        self.lamports.set(clone_bytes(account), balance);
    }
}

/// How `initialize_bridge` ends, as a function of the state it starts from.
pub open spec fn initialize_outcome(pre: Bridge, signer: Seq<u8>) -> Result<(), BridgeError> {
    if signer != pre.admin@ {
        Err(BridgeError::AuthorityError)
    } else {
        Ok(())
    }
}

/// The state `initialize_bridge` leaves behind on success: the escrow root
/// exists and nothing else changes.
pub open spec fn initialize_effect(pre: Bridge) -> Bridge {
    Bridge { root_initialized: true, ..pre }
}

/// How a lock request ends, as a function of the state it starts from and
/// its arguments. Success is owed exactly when the identifying seeds fit the
/// derivation limits, the custody slot is compatible and empty, the caller's
/// holding exists with the right mint and at least one unit, and — when a fee
/// is charged — the payer can cover it and the payee's balance can take it.
pub open spec fn lock_outcome(
    pre: Bridge,
    chain: Seq<u8>,
    contract: Seq<u8>,
    nft_id: u64,
    amount: u64,
    mint: Seq<u8>,
    sender: Seq<u8>,
    fee_from: Seq<u8>,
    fee_to: Seq<u8>,
) -> Result<(), BridgeError> {
    if !seed_len_ok(chain, contract) {
        Err(BridgeError::MalformedInput)
    } else if (pre.slot_at(triple_key(chain, contract, nft_id)) matches Some(t) && t.mint@
        != mint) {
        Err(BridgeError::MalformedInput)
    } else if pre.custody_units(chain, contract, nft_id) != 0 {
        Err(BridgeError::InvariantViolation)
    } else if pre.tok_at(sender) is None {
        Err(BridgeError::NotFound)
    } else if pre.token_mint(sender) != Some(mint) {
        Err(BridgeError::MalformedInput)
    } else if pre.token_balance(sender) < 1 {
        Err(BridgeError::InvariantViolation)
    } else if amount > 0 && pre.lamports_of(fee_from) < amount {
        Err(BridgeError::InvariantViolation)
    } else if amount > 0 && fee_from != fee_to && pre.lamports_of(fee_to) + amount > u64::MAX {
        Err(BridgeError::InvariantViolation)
    } else {
        Ok(())
    }
}

/// What a successful lock changes: one unit moves from the caller's holding
/// into the custody slot, the provenance record is (re)bound to the asset's
/// mint, the fee (if any) moves between the designated accounts, and nothing
/// else is touched.
pub open spec fn lock_effect(
    pre: Bridge,
    post: Bridge,
    chain: Seq<u8>,
    contract: Seq<u8>,
    nft_id: u64,
    amount: u64,
    mint: Seq<u8>,
    sender: Seq<u8>,
    fee_from: Seq<u8>,
    fee_to: Seq<u8>,
) -> bool {
    &&& (post.slot_at(triple_key(chain, contract, nft_id)) matches Some(t) && t.mint@ == mint
        && t.balance == 1)
    &&& forall|k: Seq<u8>|
        k != triple_key(chain, contract, nft_id) ==> post.slot_at(k) == pre.slot_at(k)
    &&& (post.record_at(triple_key(chain, contract, nft_id)) matches Some(n) && n.mint_address@
        == mint)
    &&& forall|k: Seq<u8>|
        k != triple_key(chain, contract, nft_id) ==> post.record_at(k) == pre.record_at(k)
    &&& (post.tok_at(sender) matches Some(t) && t.mint@ == mint && t.balance + 1
        == pre.token_balance(sender))
    &&& forall|k: Seq<u8>| k != sender ==> post.tok_at(k) == pre.tok_at(k)
    &&& (amount == 0 ==> post.lamports == pre.lamports)
    &&& (amount > 0 && fee_from == fee_to ==> forall|k: Seq<u8>|
        post.lamports_of(k) == pre.lamports_of(k))
    &&& (amount > 0 && fee_from != fee_to ==> post.lamports_of(fee_from) + amount
        == pre.lamports_of(fee_from) && post.lamports_of(fee_to) == pre.lamports_of(fee_to)
        + amount && (forall|k: Seq<u8>|
        k != fee_from && k != fee_to ==> post.lamports.spec_get(k) == pre.lamports.spec_get(k)))
    &&& post.admin == pre.admin
    &&& post.root_initialized == pre.root_initialized
    &&& post.collection_infos == pre.collection_infos
    &&& post.mirror_collections == pre.mirror_collections
    &&& post.mirror_items == pre.mirror_items
}

/// How an unlock request ends. Success is owed exactly when the caller is
/// the administrator, the seeds fit the derivation limits, the custody slot
/// holds exactly one unit of the named mint, and the receiving holding (if
/// it already exists) is of that mint and can take one more unit.
pub open spec fn unlock_outcome(
    pre: Bridge,
    chain: Seq<u8>,
    contract: Seq<u8>,
    nft_id: u64,
    mint: Seq<u8>,
    receiver: Seq<u8>,
    signer: Seq<u8>,
) -> Result<(), BridgeError> {
    if signer != pre.admin@ {
        Err(BridgeError::AuthorityError)
    } else if !seed_len_ok(chain, contract) {
        Err(BridgeError::MalformedInput)
    } else if pre.custody_units(chain, contract, nft_id) != 1 {
        Err(BridgeError::InvariantViolation)
    } else if pre.custody_mint(chain, contract, nft_id) != Some(mint) {
        Err(BridgeError::MalformedInput)
    } else if (pre.tok_at(receiver) matches Some(t) && t.mint@ != mint) {
        Err(BridgeError::MalformedInput)
    } else if pre.token_balance(receiver) == u64::MAX {
        Err(BridgeError::InvariantViolation)
    } else {
        Ok(())
    }
}

/// What a successful unlock changes: the custody slot is emptied and its one
/// unit lands in the receiving holding; nothing else is touched.
pub open spec fn unlock_effect(
    pre: Bridge,
    post: Bridge,
    chain: Seq<u8>,
    contract: Seq<u8>,
    nft_id: u64,
    mint: Seq<u8>,
    receiver: Seq<u8>,
) -> bool {
    &&& (post.slot_at(triple_key(chain, contract, nft_id)) matches Some(t) && t.mint@ == mint
        && t.balance == 0)
    &&& forall|k: Seq<u8>|
        k != triple_key(chain, contract, nft_id) ==> post.slot_at(k) == pre.slot_at(k)
    &&& (post.tok_at(receiver) matches Some(t) && t.mint@ == mint && t.balance
        == pre.token_balance(receiver) + 1)
    &&& forall|k: Seq<u8>| k != receiver ==> post.tok_at(k) == pre.tok_at(k)
    &&& post.admin == pre.admin
    &&& post.root_initialized == pre.root_initialized
    &&& post.nft_records == pre.nft_records
    &&& post.collection_infos == pre.collection_infos
    &&& post.mirror_collections == pre.mirror_collections
    &&& post.mirror_items == pre.mirror_items
    &&& post.lamports == pre.lamports
}

/// How a provenance re-binding request ends.
pub open spec fn store_nft_info_outcome(
    pre: Bridge,
    chain: Seq<u8>,
    contract: Seq<u8>,
    signer: Seq<u8>,
) -> Result<(), BridgeError> {
    if signer != pre.admin@ {
        Err(BridgeError::AuthorityError)
    } else if !seed_len_ok(chain, contract) {
        Err(BridgeError::MalformedInput)
    } else {
        Ok(())
    }
}

/// How a collection-origin recording ends: it is rejected only when the
/// seeds exceed the derivation limits; re-recording overwrites.
pub open spec fn store_collection_info_outcome(
    chain: Seq<u8>,
    contract: Seq<u8>,
) -> Result<(), BridgeError> {
    if !seed_len_ok(chain, contract) {
        Err(BridgeError::MalformedInput)
    } else {
        Ok(())
    }
}

/// What a successful provenance re-binding changes: exactly the one record.
pub open spec fn store_nft_info_effect(
    pre: Bridge,
    post: Bridge,
    chain: Seq<u8>,
    contract: Seq<u8>,
    nft_id: u64,
    mint: Seq<u8>,
) -> bool {
    &&& (post.record_at(triple_key(chain, contract, nft_id)) matches Some(n) && n.mint_address@
        == mint)
    &&& forall|k: Seq<u8>|
        k != triple_key(chain, contract, nft_id) ==> post.record_at(k) == pre.record_at(k)
    &&& post.admin == pre.admin
    &&& post.root_initialized == pre.root_initialized
    &&& post.slots == pre.slots
    &&& post.collection_infos == pre.collection_infos
    &&& post.mirror_collections == pre.mirror_collections
    &&& post.mirror_items == pre.mirror_items
    &&& post.token_accounts == pre.token_accounts
    &&& post.lamports == pre.lamports
}

/// What a successful collection-origin recording changes: exactly the one
/// collection record, whose fields repeat the key.
pub open spec fn store_collection_info_effect(
    pre: Bridge,
    post: Bridge,
    chain: Seq<u8>,
    contract: Seq<u8>,
) -> bool {
    &&& (post.info_at(pair_key(chain, contract)) matches Some(c) && c.origin_chain@ == chain
        && c.origin_contract_address@ == contract)
    &&& forall|k: Seq<u8>| k != pair_key(chain, contract) ==> post.info_at(k) == pre.info_at(k)
    &&& post.admin == pre.admin
    &&& post.root_initialized == pre.root_initialized
    &&& post.slots == pre.slots
    &&& post.nft_records == pre.nft_records
    &&& post.mirror_collections == pre.mirror_collections
    &&& post.mirror_items == pre.mirror_items
    &&& post.token_accounts == pre.token_accounts
    &&& post.lamports == pre.lamports
}

impl Bridge {
    /// Creates the escrow root. Idempotent: re-invocation by the
    /// administrator succeeds and leaves the state untouched.
    pub fn initialize_bridge(&mut self, signer: &Vec<u8>) -> (r: Result<(), BridgeError>)
        ensures
            r == initialize_outcome(*old(self), signer@),
            r is Ok ==> *final(self) == initialize_effect(*old(self)),
            r is Err ==> *final(self) == *old(self),
    {
        if !bytes_eq(signer, &self.admin) {
            return Err(BridgeError::AuthorityError);
        }
        self.root_initialized = true;
        Ok(())
    }

    /// Locks one unit of the asset identified by (origin chain, origin
    /// contract, asset id) into its custody slot, charging a plain value fee
    /// of `amount` from `from_pubkey` to `to_pubkey` when `amount > 0`, and
    /// binds the provenance record to the asset's mint.
    ///
    /// `coll_id`, `src_address`, `dst_chain` and `dst_address` are the
    /// departure data the relayer reads from the request's log; they do not
    /// touch the persisted state.
    #[allow(unused_variables)]
    pub fn initialize_and_lock_nft_fee(
        &mut self,
        origin_chain: &Vec<u8>,
        origin_contract_address: &Vec<u8>,
        nft_id: u64,
        amount: u64,
        coll_id: &Vec<u8>,
        src_address: &Vec<u8>,
        dst_chain: &Vec<u8>,
        dst_address: &Vec<u8>,
        mint_of_token_being_sent: &Vec<u8>,
        sender_token_account: &Vec<u8>,
        from_pubkey: &Vec<u8>,
        to_pubkey: &Vec<u8>,
    ) -> (r: Result<(), BridgeError>)
        ensures
            r == lock_outcome(
                *old(self),
                origin_chain@,
                origin_contract_address@,
                nft_id,
                amount,
                mint_of_token_being_sent@,
                sender_token_account@,
                from_pubkey@,
                to_pubkey@,
            ),
            r is Err ==> *final(self) == *old(self),
            r is Ok ==> lock_effect(
                *old(self),
                *final(self),
                origin_chain@,
                origin_contract_address@,
                nft_id,
                amount,
                mint_of_token_being_sent@,
                sender_token_account@,
                from_pubkey@,
                to_pubkey@,
            ),
    {
        if origin_chain.len() > crate::keys::MAX_SEED_LEN || origin_contract_address.len()
            > crate::keys::MAX_SEED_LEN {
            return Err(BridgeError::MalformedInput);
        }
        let k3 = make_triple_key(origin_chain, origin_contract_address, nft_id);
        match self.slots.get(&k3) {
            Some(t) => {
                if !bytes_eq(&t.mint, mint_of_token_being_sent) {
                    return Err(BridgeError::MalformedInput);
                }
                if t.balance != 0 {
                    return Err(BridgeError::InvariantViolation);
                }
            },
            None => {},
        }
        let sender_balance: u64;
        match self.token_accounts.get(sender_token_account) {
            Some(t) => {
                if !bytes_eq(&t.mint, mint_of_token_being_sent) {
                    return Err(BridgeError::MalformedInput);
                }
                if t.balance < 1 {
                    return Err(BridgeError::InvariantViolation);
                }
                sender_balance = t.balance;
            },
            None => {
                return Err(BridgeError::NotFound);
            },
        }
        if amount > 0 {
            let from_balance: u64 = match self.lamports.get(from_pubkey) {
                Some(n) => *n,
                None => 0,
            };
            if from_balance < amount {
                return Err(BridgeError::InvariantViolation);
            }
            if !bytes_eq(from_pubkey, to_pubkey) {
                let to_balance: u64 = match self.lamports.get(to_pubkey) {
                    Some(n) => *n,
                    None => 0,
                };
                if to_balance > u64::MAX - amount {
                    return Err(BridgeError::InvariantViolation);
                }
                self.lamports.set(clone_bytes(from_pubkey), from_balance - amount);
                self.lamports.set(clone_bytes(to_pubkey), to_balance + amount);
            }
        }
        let moved = TokenAccount {
            mint: clone_bytes(mint_of_token_being_sent),
            balance: sender_balance - 1,
        };
        self.token_accounts.set(clone_bytes(sender_token_account), moved);
        let held = TokenAccount { mint: clone_bytes(mint_of_token_being_sent), balance: 1 };
        self.slots.set(k3, held);
        let krec = make_triple_key(origin_chain, origin_contract_address, nft_id);
        let info = NftInfoInBridge { mint_address: clone_bytes(mint_of_token_being_sent) };
        self.nft_records.set(krec, info);
        Ok(())
    }

    /// Locks an asset without charging a fee; otherwise exactly
    /// `initialize_and_lock_nft_fee`.
    pub fn initialize_and_lock_nft(
        &mut self,
        origin_chain: &Vec<u8>,
        origin_contract_address: &Vec<u8>,
        nft_id: u64,
        coll_id: &Vec<u8>,
        src_address: &Vec<u8>,
        dst_chain: &Vec<u8>,
        dst_address: &Vec<u8>,
        mint_of_token_being_sent: &Vec<u8>,
        sender_token_account: &Vec<u8>,
    ) -> (r: Result<(), BridgeError>)
        ensures
            r == lock_outcome(
                *old(self),
                origin_chain@,
                origin_contract_address@,
                nft_id,
                0,
                mint_of_token_being_sent@,
                sender_token_account@,
                Seq::empty(),
                Seq::empty(),
            ),
            r is Err ==> *final(self) == *old(self),
            r is Ok ==> lock_effect(
                *old(self),
                *final(self),
                origin_chain@,
                origin_contract_address@,
                nft_id,
                0,
                mint_of_token_being_sent@,
                sender_token_account@,
                Seq::empty(),
                Seq::empty(),
            ),
    {
        let none: Vec<u8> = Vec::new();
        proof {
            assert(none@ =~= Seq::<u8>::empty());
        }
        self.initialize_and_lock_nft_fee(
            origin_chain,
            origin_contract_address,
            nft_id,
            0,
            coll_id,
            src_address,
            dst_chain,
            dst_address,
            mint_of_token_being_sent,
            sender_token_account,
            &none,
            &none,
        )
    }

    /// Releases the one unit held in the custody slot of (origin chain,
    /// origin contract, asset id) into the receiver's holding, under the
    /// escrow root's own derived authority.
    ///
    /// `coll_id`, `src_chain`, `src_address`, `dst_address` and
    /// `bridge_txid` are the return data the relayer supplied; they are
    /// logged with the request and do not touch the persisted state.
    #[allow(unused_variables)]
    pub fn unlock_nft(
        &mut self,
        origin_chain: &Vec<u8>,
        origin_contract_address: &Vec<u8>,
        nft_id: u64,
        coll_id: &Vec<u8>,
        src_chain: &Vec<u8>,
        src_address: &Vec<u8>,
        dst_address: &Vec<u8>,
        bridge_txid: &Vec<u8>,
        mint_of_token_being_sent: &Vec<u8>,
        receiver_token_account: &Vec<u8>,
        signer: &Vec<u8>,
    ) -> (r: Result<(), BridgeError>)
        ensures
            r == unlock_outcome(
                *old(self),
                origin_chain@,
                origin_contract_address@,
                nft_id,
                mint_of_token_being_sent@,
                receiver_token_account@,
                signer@,
            ),
            r is Err ==> *final(self) == *old(self),
            r is Ok ==> unlock_effect(
                *old(self),
                *final(self),
                origin_chain@,
                origin_contract_address@,
                nft_id,
                mint_of_token_being_sent@,
                receiver_token_account@,
            ),
    {
        if !bytes_eq(signer, &self.admin) {
            return Err(BridgeError::AuthorityError);
        }
        if origin_chain.len() > crate::keys::MAX_SEED_LEN || origin_contract_address.len()
            > crate::keys::MAX_SEED_LEN {
            return Err(BridgeError::MalformedInput);
        }
        let k3 = make_triple_key(origin_chain, origin_contract_address, nft_id);
        match self.slots.get(&k3) {
            Some(t) => {
                if t.balance != 1 {
                    return Err(BridgeError::InvariantViolation);
                }
                if !bytes_eq(&t.mint, mint_of_token_being_sent) {
                    return Err(BridgeError::MalformedInput);
                }
            },
            None => {
                return Err(BridgeError::InvariantViolation);
            },
        }
        let receiver_balance: u64;
        match self.token_accounts.get(receiver_token_account) {
            Some(t) => {
                if !bytes_eq(&t.mint, mint_of_token_being_sent) {
                    return Err(BridgeError::MalformedInput);
                }
                receiver_balance = t.balance;
            },
            None => {
                receiver_balance = 0;
            },
        }
        if receiver_balance == u64::MAX {
            return Err(BridgeError::InvariantViolation);
        }
        let emptied = TokenAccount { mint: clone_bytes(mint_of_token_being_sent), balance: 0 };
        self.slots.set(k3, emptied);
        let received = TokenAccount {
            mint: clone_bytes(mint_of_token_being_sent),
            balance: receiver_balance + 1,
        };
        self.token_accounts.set(clone_bytes(receiver_token_account), received);
        Ok(())
    }

    /// Unconditionally (re)binds the provenance record of (origin chain,
    /// origin contract, asset id) to `mint_address`. No custody effects.
    pub fn store_nft_info_in_bridge(
        &mut self,
        origin_chain: &Vec<u8>,
        origin_contract_address: &Vec<u8>,
        mint_address: &Vec<u8>,
        nft_id: u64,
        signer: &Vec<u8>,
    ) -> (r: Result<(), BridgeError>)
        ensures
            r == store_nft_info_outcome(
                *old(self),
                origin_chain@,
                origin_contract_address@,
                signer@,
            ),
            r is Err ==> *final(self) == *old(self),
            r is Ok ==> store_nft_info_effect(
                *old(self),
                *final(self),
                origin_chain@,
                origin_contract_address@,
                nft_id,
                mint_address@,
            ),
    {
        if !bytes_eq(signer, &self.admin) {
            return Err(BridgeError::AuthorityError);
        }
        if origin_chain.len() > crate::keys::MAX_SEED_LEN || origin_contract_address.len()
            > crate::keys::MAX_SEED_LEN {
            return Err(BridgeError::MalformedInput);
        }
        let krec = make_triple_key(origin_chain, origin_contract_address, nft_id);
        let info = NftInfoInBridge { mint_address: clone_bytes(mint_address) };
        self.nft_records.set(krec, info);
        Ok(())
    }

    /// Records (or overwrites, last write wins) the origin of a collection.
    pub fn store_collection_info(
        &mut self,
        origin_chain: &Vec<u8>,
        origin_contract_address: &Vec<u8>,
    ) -> (r: Result<(), BridgeError>)
        ensures
            r == store_collection_info_outcome(origin_chain@, origin_contract_address@),
            r is Err ==> *final(self) == *old(self),
            r is Ok ==> store_collection_info_effect(
                *old(self),
                *final(self),
                origin_chain@,
                origin_contract_address@,
            ),
    {
        if origin_chain.len() > crate::keys::MAX_SEED_LEN || origin_contract_address.len()
            > crate::keys::MAX_SEED_LEN {
            return Err(BridgeError::MalformedInput);
        }
        let kp = make_pair_key(origin_chain, origin_contract_address);
        let info = CollectionInfo {
            origin_chain: clone_bytes(origin_chain),
            origin_contract_address: clone_bytes(origin_contract_address),
        };
        self.collection_infos.set(kp, info);
        Ok(())
    }

    /// Whether the escrow root exists.
    pub fn is_initialized(&self) -> (r: bool)
        ensures
            r == self.root_initialized,
    {
        self.root_initialized
    }

    /// Units held in custody for (origin chain, origin contract, asset id).
    pub fn custody_units_of(&self, chain: &Vec<u8>, contract: &Vec<u8>, id: u64) -> (r: u64)
        ensures
            r == self.custody_units(chain@, contract@, id),
    {
        let k3 = make_triple_key(chain, contract, id);
        match self.slots.get(&k3) {
            Some(t) => t.balance,
            None => 0,
        }
    }

    /// The provenance record of (origin chain, origin contract, asset id).
    pub fn nft_record_of<'a>(&'a self, chain: &Vec<u8>, contract: &Vec<u8>, id: u64) -> (r: Option<
        &'a NftInfoInBridge,
    >)
        ensures
            (match r {
                Some(n) => self.record_at(triple_key(chain@, contract@, id)) == Some(*n),
                None => self.record_at(triple_key(chain@, contract@, id)) is None,
            }),
    {
        let k3 = make_triple_key(chain, contract, id);
        self.nft_records.get(&k3)
    }

    /// The collection record of (origin chain, origin contract).
    pub fn collection_info_of<'a>(&'a self, chain: &Vec<u8>, contract: &Vec<u8>) -> (r: Option<
        &'a CollectionInfo,
    >)
        ensures
            (match r {
                Some(c) => self.info_at(pair_key(chain@, contract@)) == Some(*c),
                None => self.info_at(pair_key(chain@, contract@)) is None,
            }),
    {
        let kp = make_pair_key(chain, contract);
        self.collection_infos.get(&kp)
    }

    /// The mirror collection of (origin chain, origin contract).
    pub fn mirror_collection_of<'a>(&'a self, chain: &Vec<u8>, contract: &Vec<u8>) -> (r: Option<
        &'a MirrorCollection,
    >)
        ensures
            (match r {
                Some(m) => self.mirror_at(pair_key(chain@, contract@)) == Some(*m),
                None => self.mirror_at(pair_key(chain@, contract@)) is None,
            }),
    {
        let kp = make_pair_key(chain, contract);
        self.mirror_collections.get(&kp)
    }

    /// Outstanding units of the mirror collection asset.
    pub fn mirror_units_of(&self, chain: &Vec<u8>, contract: &Vec<u8>) -> (r: u64)
        ensures
            r == self.mirror_units(chain@, contract@),
    {
        let kp = make_pair_key(chain, contract);
        match self.mirror_collections.get(&kp) {
            Some(m) => m.units,
            None => 0,
        }
    }

    /// The mirror item minted at `mint`, if any.
    pub fn mirror_item_of<'a>(&'a self, mint: &Vec<u8>) -> (r: Option<&'a MirrorItem>)
        ensures
            (match r {
                Some(i) => self.item_at(mint@) == Some(*i),
                None => self.item_at(mint@) is None,
            }),
    {
        self.mirror_items.get(mint)
    }

    /// Units held at a token holding; zero if it does not exist.
    pub fn token_balance_of(&self, holding: &Vec<u8>) -> (r: u64)
        ensures
            r == self.token_balance(holding@),
    {
        match self.token_accounts.get(holding) {
            Some(t) => t.balance,
            None => 0,
        }
    }

    /// The token holding at `holding`, if it exists.
    pub fn token_account_of<'a>(&'a self, holding: &Vec<u8>) -> (r: Option<&'a TokenAccount>)
        ensures
            (match r {
                Some(t) => self.tok_at(holding@) == Some(*t),
                None => self.tok_at(holding@) is None,
            }),
    {
        self.token_accounts.get(holding)
    }

    /// Plain value balance of `account`; zero if it does not exist.
    pub fn lamports_balance_of(&self, account: &Vec<u8>) -> (r: u64)
        ensures
            r == self.lamports_of(account@),
    {
        match self.lamports.get(account) {
            Some(n) => *n,
            None => 0,
        }
    }
}

} // verus!

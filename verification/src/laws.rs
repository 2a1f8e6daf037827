//! Laws relating the bridge's operations to one another. Each is stated
//! over the outcome and effect functions that the operations' own contracts
//! are written in, so together with those contracts it speaks about the
//! executable operations themselves.

use vstd::prelude::*;
use crate::error::BridgeError;
use crate::keys::{seed_len_ok, pair_key};
use crate::state::{
    Bridge, initialize_outcome, initialize_effect, lock_outcome, lock_effect, unlock_outcome,
    unlock_effect,
};
use crate::mirror::{
    create_collection_outcome, create_collection_effect, create_item_outcome, verify_item_outcome,
};

verus! {

/// After a successful lock of an asset, a second lock of the same asset —
/// any fee, any sender — is rejected as an invariant violation.
pub proof fn lemma_lock_then_second_lock_rejected(
    pre: Bridge,
    mid: Bridge,
    chain: Seq<u8>,
    contract: Seq<u8>,
    nft_id: u64,
    amount: u64,
    mint: Seq<u8>,
    sender: Seq<u8>,
    fee_from: Seq<u8>,
    fee_to: Seq<u8>,
    amount2: u64,
    sender2: Seq<u8>,
    fee_from2: Seq<u8>,
    fee_to2: Seq<u8>,
)
    requires
        seed_len_ok(chain, contract),
        lock_effect(pre, mid, chain, contract, nft_id, amount, mint, sender, fee_from, fee_to),
    ensures
        lock_outcome(mid, chain, contract, nft_id, amount2, mint, sender2, fee_from2, fee_to2)
            == Err::<(), BridgeError>(BridgeError::InvariantViolation),
{
    lemma_second_lock_rejected(
        mid,
        chain,
        contract,
        nft_id,
        amount2,
        mint,
        sender2,
        fee_from2,
        fee_to2,
    );
}

/// A lock of one asset leaves the custody slot and provenance record of
/// every other asset untouched: the store keys of distinct (chain,
/// contract, id) triples never collide.
pub proof fn lemma_lock_frames_other_assets(
    pre: Bridge,
    post: Bridge,
    chain: Seq<u8>,
    contract: Seq<u8>,
    nft_id: u64,
    amount: u64,
    mint: Seq<u8>,
    sender: Seq<u8>,
    fee_from: Seq<u8>,
    fee_to: Seq<u8>,
    chain2: Seq<u8>,
    contract2: Seq<u8>,
    id2: u64,
)
    requires
        seed_len_ok(chain, contract),
        seed_len_ok(chain2, contract2),
        lock_effect(pre, post, chain, contract, nft_id, amount, mint, sender, fee_from, fee_to),
        !(chain2 == chain && contract2 == contract && id2 == nft_id),
    ensures
        post.custody_units(chain2, contract2, id2) == pre.custody_units(chain2, contract2, id2),
        post.nft_record_mint(chain2, contract2, id2) == pre.nft_record_mint(
            chain2,
            contract2,
            id2,
        ),
{
    if crate::keys::triple_key(chain2, contract2, id2) == crate::keys::triple_key(
        chain,
        contract,
        nft_id,
    ) {
        crate::keys::lemma_triple_key_injective(chain2, contract2, id2, chain, contract, nft_id);
    }
}

/// After a successful lock, the administrator is owed a successful unlock of
/// that asset into any holding that does not collide with a holding of
/// another mint.
pub proof fn lemma_lock_then_unlock_succeeds(
    pre: Bridge,
    mid: Bridge,
    chain: Seq<u8>,
    contract: Seq<u8>,
    nft_id: u64,
    amount: u64,
    mint: Seq<u8>,
    sender: Seq<u8>,
    fee_from: Seq<u8>,
    fee_to: Seq<u8>,
    receiver: Seq<u8>,
    signer: Seq<u8>,
)
    requires
        seed_len_ok(chain, contract),
        lock_effect(pre, mid, chain, contract, nft_id, amount, mint, sender, fee_from, fee_to),
        signer == mid.admin@,
        mid.tok_at(receiver) matches Some(t) ==> t.mint@ == mint && t.balance < u64::MAX,
    ensures
        unlock_outcome(mid, chain, contract, nft_id, mint, receiver, signer) == Ok::<
            (),
            BridgeError,
        >(()),
{
}

/// After a successful unlock, the custody slot is empty again: a further
/// unlock of the same asset is rejected, and a fresh lock is possible.
pub proof fn lemma_unlock_then_unlock_rejected(
    pre: Bridge,
    post: Bridge,
    chain: Seq<u8>,
    contract: Seq<u8>,
    nft_id: u64,
    mint: Seq<u8>,
    receiver: Seq<u8>,
    receiver2: Seq<u8>,
    signer: Seq<u8>,
)
    requires
        seed_len_ok(chain, contract),
        unlock_effect(pre, post, chain, contract, nft_id, mint, receiver),
        signer == post.admin@,
    ensures
        unlock_outcome(post, chain, contract, nft_id, mint, receiver2, signer) == Err::<
            (),
            BridgeError,
        >(BridgeError::InvariantViolation),
{
    lemma_unlock_empty_rejected(post, chain, contract, nft_id, mint, receiver2, signer);
}

/// After a successful mirror-collection creation for a foreign origin, a
/// second creation for the same key is rejected: at most one unit of the
/// mirror asset is ever outstanding.
pub proof fn lemma_create_then_second_create_rejected(
    pre: Bridge,
    mid: Bridge,
    chain: Seq<u8>,
    contract: Seq<u8>,
    signer: Seq<u8>,
)
    requires
        seed_len_ok(chain, contract),
        signer == mid.admin@,
        pre.info_at(pair_key(chain, contract)) is Some,
        !pre.collection_is_native(chain, contract),
        create_collection_effect(pre, mid, chain, contract),
    ensures
        create_collection_outcome(mid, chain, contract, signer) == Err::<(), BridgeError>(
            BridgeError::InvariantViolation,
        ),
{
    lemma_second_mirror_mint_rejected(mid, chain, contract, signer);
}

/// Once the custody slot of an asset holds its unit — as every successful
/// lock leaves it — a second lock of the same asset, whatever its fee
/// arguments, is rejected as an invariant violation.
pub proof fn lemma_second_lock_rejected(
    b: Bridge,
    chain: Seq<u8>,
    contract: Seq<u8>,
    nft_id: u64,
    amount: u64,
    mint: Seq<u8>,
    sender: Seq<u8>,
    fee_from: Seq<u8>,
    fee_to: Seq<u8>,
)
    requires
        seed_len_ok(chain, contract),
        b.custody_units(chain, contract, nft_id) == 1,
        b.custody_mint(chain, contract, nft_id) == Some(mint),
    ensures
        lock_outcome(b, chain, contract, nft_id, amount, mint, sender, fee_from, fee_to)
            == Err::<(), BridgeError>(BridgeError::InvariantViolation),
{
}

/// While the custody slot of an asset is empty — before any lock, or after
/// its release — an unlock of that asset is rejected as an invariant
/// violation, even for the administrator.
pub proof fn lemma_unlock_empty_rejected(
    b: Bridge,
    chain: Seq<u8>,
    contract: Seq<u8>,
    nft_id: u64,
    mint: Seq<u8>,
    receiver: Seq<u8>,
    signer: Seq<u8>,
)
    requires
        signer == b.admin@,
        seed_len_ok(chain, contract),
        b.custody_units(chain, contract, nft_id) == 0,
    ensures
        unlock_outcome(b, chain, contract, nft_id, mint, receiver, signer)
            == Err::<(), BridgeError>(BridgeError::InvariantViolation),
{
}

/// Initializing the escrow root is idempotent: for the administrator it
/// never errors, and initializing an already initialized deployment leaves
/// the state exactly as it was.
pub proof fn lemma_initialize_idempotent(b: Bridge, signer: Seq<u8>)
    requires
        signer == b.admin@,
    ensures
        initialize_outcome(b, signer) == Ok::<(), BridgeError>(()),
        initialize_outcome(initialize_effect(b), signer) == Ok::<(), BridgeError>(()),
        initialize_effect(initialize_effect(b)) == initialize_effect(b),
{
}

/// When a collection's recorded origin is the native chain, minting its
/// mirror collection, minting a mirror item, and verifying membership all
/// succeed as no-ops.
pub proof fn lemma_native_collection_noop(
    b: Bridge,
    chain: Seq<u8>,
    contract: Seq<u8>,
    item_mint: Seq<u8>,
    receiver: Seq<u8>,
    signer: Seq<u8>,
)
    requires
        signer == b.admin@,
        seed_len_ok(chain, contract),
        b.collection_is_native(chain, contract),
    ensures
        create_collection_outcome(b, chain, contract, signer) == Ok::<(), BridgeError>(()),
        create_item_outcome(b, chain, contract, item_mint, receiver, signer) == Ok::<
            (),
            BridgeError,
        >(()),
        verify_item_outcome(b, chain, contract, item_mint, signer) == Ok::<(), BridgeError>(()),
{
}

/// Once one unit of a mirror collection asset is outstanding — as every
/// successful creation leaves it — a second creation for the same key is
/// rejected: the unit supply never exceeds one.
pub proof fn lemma_second_mirror_mint_rejected(
    b: Bridge,
    chain: Seq<u8>,
    contract: Seq<u8>,
    signer: Seq<u8>,
)
    requires
        signer == b.admin@,
        seed_len_ok(chain, contract),
        b.info_at(pair_key(chain, contract)) is Some,
        !b.collection_is_native(chain, contract),
        b.mirror_units(chain, contract) >= 1,
    ensures
        create_collection_outcome(b, chain, contract, signer) == Err::<(), BridgeError>(
            BridgeError::InvariantViolation,
        ),
{
}

/// Once a mirror item exists at a mint — as every successful item creation
/// leaves it — minting again at that mint is rejected: the item's unit
/// supply never exceeds one.
pub proof fn lemma_second_item_mint_rejected(
    b: Bridge,
    chain: Seq<u8>,
    contract: Seq<u8>,
    item_mint: Seq<u8>,
    receiver: Seq<u8>,
    signer: Seq<u8>,
)
    requires
        signer == b.admin@,
        seed_len_ok(chain, contract),
        b.info_at(pair_key(chain, contract)) is Some,
        !b.collection_is_native(chain, contract),
        b.mirror_at(pair_key(chain, contract)) is Some,
        b.item_at(item_mint) is Some,
    ensures
        create_item_outcome(b, chain, contract, item_mint, receiver, signer) == Err::<
            (),
            BridgeError,
        >(BridgeError::InvariantViolation),
{
}

/// Verifying membership before the mirror collection has been minted fails
/// with NotFound, for any item.
pub proof fn lemma_verify_before_mirror_rejected(
    b: Bridge,
    chain: Seq<u8>,
    contract: Seq<u8>,
    item_mint: Seq<u8>,
    signer: Seq<u8>,
)
    requires
        signer == b.admin@,
        seed_len_ok(chain, contract),
        !b.collection_is_native(chain, contract),
        b.mirror_at(pair_key(chain, contract)) is None,
    ensures
        verify_item_outcome(b, chain, contract, item_mint, signer) == Err::<(), BridgeError>(
            BridgeError::NotFound,
        ),
{
}

/// Verifying membership before the mirror collection's descriptors are
/// complete — metadata, master edition and the sized-collection marker —
/// fails with MalformedInput, for any item.
pub proof fn lemma_verify_unfinalized_rejected(
    b: Bridge,
    chain: Seq<u8>,
    contract: Seq<u8>,
    item_mint: Seq<u8>,
    signer: Seq<u8>,
)
    requires
        signer == b.admin@,
        seed_len_ok(chain, contract),
        b.info_at(pair_key(chain, contract)) is Some,
        !b.collection_is_native(chain, contract),
        b.mirror_at(pair_key(chain, contract)) is Some,
        !(b.mirror_at(pair_key(chain, contract)) matches Some(m) && m.metadata is Some
            && m.has_master_edition && m.is_sized),
    ensures
        verify_item_outcome(b, chain, contract, item_mint, signer) == Err::<(), BridgeError>(
            BridgeError::MalformedInput,
        ),
{
}

/// Custody invariant: no custody slot ever holds more than one unit. It
/// holds of a fresh deployment (no slot exists) and every operation below
/// preserves it.
pub open spec fn custody_slots_wf(b: Bridge) -> bool {
    forall|k: Seq<u8>|
        match #[trigger] b.slot_at(k) {
            Some(t) => t.balance <= 1,
            None => true,
        }
}

/// Unit-supply invariant of the mirror assets: neither a mirror collection
/// nor a mirror item ever has more than one unit outstanding.
pub open spec fn mirror_supply_wf(b: Bridge) -> bool {
    &&& forall|k: Seq<u8>|
        match #[trigger] b.mirror_at(k) {
            Some(m) => m.units <= 1,
            None => true,
        }
    &&& forall|k: Seq<u8>|
        match #[trigger] b.item_at(k) {
            Some(i) => i.units <= 1,
            None => true,
        }
}

/// A successful lock keeps every custody slot at one unit or fewer.
pub proof fn lemma_lock_preserves_custody_wf(
    pre: Bridge,
    post: Bridge,
    chain: Seq<u8>,
    contract: Seq<u8>,
    nft_id: u64,
    amount: u64,
    mint: Seq<u8>,
    sender: Seq<u8>,
    fee_from: Seq<u8>,
    fee_to: Seq<u8>,
)
    requires
        custody_slots_wf(pre),
        lock_effect(pre, post, chain, contract, nft_id, amount, mint, sender, fee_from, fee_to),
    ensures
        custody_slots_wf(post),
{
    assert forall|k: Seq<u8>|
        match #[trigger] post.slot_at(k) {
            Some(t) => t.balance <= 1,
            None => true,
        } by {
        if k != crate::keys::triple_key(chain, contract, nft_id) {
            assert(post.slot_at(k) == pre.slot_at(k));
        }
    }
}

/// A successful unlock keeps every custody slot at one unit or fewer.
pub proof fn lemma_unlock_preserves_custody_wf(
    pre: Bridge,
    post: Bridge,
    chain: Seq<u8>,
    contract: Seq<u8>,
    nft_id: u64,
    mint: Seq<u8>,
    receiver: Seq<u8>,
)
    requires
        custody_slots_wf(pre),
        unlock_effect(pre, post, chain, contract, nft_id, mint, receiver),
    ensures
        custody_slots_wf(post),
{
    assert forall|k: Seq<u8>|
        match #[trigger] post.slot_at(k) {
            Some(t) => t.balance <= 1,
            None => true,
        } by {
        if k != crate::keys::triple_key(chain, contract, nft_id) {
            assert(post.slot_at(k) == pre.slot_at(k));
        }
    }
}

/// Both phases of mirror-collection creation, and mirror-item creation,
/// keep every mirror supply at one unit or fewer.
pub proof fn lemma_mirror_ops_preserve_supply_wf(
    pre: Bridge,
    post: Bridge,
    chain: Seq<u8>,
    contract: Seq<u8>,
    item_mint: Seq<u8>,
    receiver: Seq<u8>,
    uri: Seq<u8>,
    name: Seq<u8>,
    symbol: Seq<u8>,
)
    requires
        mirror_supply_wf(pre),
        create_collection_effect(pre, post, chain, contract) || crate::mirror::describe_collection_effect(
            pre,
            post,
            chain,
            contract,
            uri,
            name,
            symbol,
        ) || crate::mirror::create_item_effect(
            pre,
            post,
            chain,
            contract,
            item_mint,
            receiver,
            uri,
            name,
            symbol,
        ),
    ensures
        mirror_supply_wf(post),
{
    assert forall|k: Seq<u8>|
        match #[trigger] post.mirror_at(k) {
            Some(m) => m.units <= 1,
            None => true,
        } by {
        if k != pair_key(chain, contract) {
            assert(post.mirror_at(k) == pre.mirror_at(k));
        }
    }
    assert forall|k: Seq<u8>|
        match #[trigger] post.item_at(k) {
            Some(i) => i.units <= 1,
            None => true,
        } by {
        if k != item_mint {
            assert(post.item_at(k) == pre.item_at(k));
        }
    }
}

} // verus!

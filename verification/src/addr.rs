//! Deterministic account addresses.
//!
//! Every account the bridge owns sits at a program-derived address computed
//! from a namespace tag followed by the identifying components of the record,
//! so that addresses of different record kinds can never coincide. The
//! derivation itself — a hash search over bump seeds — is the ledger's own
//! scheme and is called through a trusted wrapper; the result is named by
//! [`pda_of`] and is a function of the seed tuple and program identity alone.
//!
//! The bump seed returned beside each address is the proof-of-authority
//! material: only the owning program can sign for the address, by presenting
//! the seed tuple together with the bump inside its own request execution.
//! It is recomputed on every call and never persisted.

use vstd::prelude::*;
use crate::bytes::le8;
use crate::bytes::u64_le_bytes;

verus! {

/// The address and bump seed that the ledger's program-derived-address
/// scheme assigns to a seed tuple under a program identity, if any.
pub uninterp spec fn pda_of(seeds: Seq<Seq<u8>>, program_id: Seq<u8>) -> Option<(Seq<u8>, u8)>;

/// The contents of a sequence of byte vectors.
pub open spec fn views_of(seeds: Seq<Vec<u8>>) -> Seq<Seq<u8>> {
    seeds.map_values(|v: Vec<u8>| v@)
}

/// Relies on solana_program's Pubkey::try_find_program_address: a pure,
/// deterministic search over bump seeds, a function of the seed tuple and
/// the program id alone; it returns None when no bump seed yields a valid
/// address or when the seeds exceed the scheme's limits.
#[verifier::external_body]
fn try_find_pda(seeds: &Vec<Vec<u8>>, program_id: &Vec<u8>) -> (r: Option<(Vec<u8>, u8)>)
    ensures
        program_id@.len() != 32 ==> r is None,
        program_id@.len() == 32 ==> (match r {
            None => pda_of(views_of(seeds@), program_id@) is None,
            Some(p) => pda_of(views_of(seeds@), program_id@) == Some((p.0@, p.1))
                && p.0@.len() == 32,
        }),
{
    if program_id.len() != 32 {
        return None;
    }
    let mut pid = [0u8; 32];
    pid.copy_from_slice(program_id.as_slice());
    let pk = solana_program::pubkey::Pubkey::new_from_array(pid);
    let seed_refs: Vec<&[u8]> = seeds.iter().map(|s| s.as_slice()).collect();
    solana_program::pubkey::Pubkey::try_find_program_address(&seed_refs, &pk)
        .map(|(a, b)| (a.to_bytes().to_vec(), b))
}

/// Namespace tag of the escrow root: the ASCII bytes of "bridge".
pub open spec fn tag_bridge() -> Seq<u8> {
    seq![98, 114, 105, 100, 103, 101]
}

/// Namespace tag of custody slots: the ASCII bytes of "nft".
pub open spec fn tag_nft() -> Seq<u8> {
    seq![110, 102, 116]
}

/// Namespace tag of per-asset provenance records: the ASCII bytes of
/// "nft_info".
pub open spec fn tag_nft_info() -> Seq<u8> {
    seq![110, 102, 116, 95, 105, 110, 102, 111]
}

/// Namespace tag of mirror-collection controllers: the ASCII bytes of
/// "Collection".
pub open spec fn tag_collection() -> Seq<u8> {
    seq![67, 111, 108, 108, 101, 99, 116, 105, 111, 110]
}

/// Namespace tag of collection provenance records: the ASCII bytes of
/// "Collection_Info".
pub open spec fn tag_collection_info() -> Seq<u8> {
    tag_collection() + seq![95, 73, 110, 102, 111]
}

/// Seed tuple of the escrow root.
pub open spec fn escrow_root_seeds() -> Seq<Seq<u8>> {
    seq![tag_bridge()]
}

/// Seed tuple of an asset's custody slot.
pub open spec fn custody_slot_seeds(chain: Seq<u8>, contract: Seq<u8>, id: u64) -> Seq<Seq<u8>> {
    seq![tag_nft(), le8(id), chain, contract]
}

/// Seed tuple of an asset's provenance record.
pub open spec fn nft_record_seeds(chain: Seq<u8>, contract: Seq<u8>, id: u64) -> Seq<Seq<u8>> {
    seq![tag_nft_info(), le8(id), chain, contract]
}

/// Seed tuple of a collection's provenance record.
pub open spec fn collection_record_seeds(chain: Seq<u8>, contract: Seq<u8>) -> Seq<Seq<u8>> {
    seq![tag_collection_info(), chain, contract]
}

/// Seed tuple of a collection's controller, which holds mint and freeze
/// authority over the collection's mirror assets.
pub open spec fn collection_controller_seeds(chain: Seq<u8>, contract: Seq<u8>) -> Seq<Seq<u8>> {
    seq![tag_collection(), chain, contract]
}

/// Seed tuples of different record kinds never coincide: each kind opens
/// with its own namespace tag.
pub proof fn lemma_namespaces_disjoint(
    chain1: Seq<u8>,
    contract1: Seq<u8>,
    id1: u64,
    chain2: Seq<u8>,
    contract2: Seq<u8>,
    id2: u64,
)
    ensures
        escrow_root_seeds() != custody_slot_seeds(chain2, contract2, id2),
        escrow_root_seeds() != nft_record_seeds(chain2, contract2, id2),
        escrow_root_seeds() != collection_record_seeds(chain2, contract2),
        escrow_root_seeds() != collection_controller_seeds(chain2, contract2),
        custody_slot_seeds(chain1, contract1, id1) != nft_record_seeds(chain2, contract2, id2),
        custody_slot_seeds(chain1, contract1, id1) != collection_record_seeds(chain2, contract2),
        custody_slot_seeds(chain1, contract1, id1) != collection_controller_seeds(chain2, contract2),
        nft_record_seeds(chain1, contract1, id1) != collection_record_seeds(chain2, contract2),
        nft_record_seeds(chain1, contract1, id1) != collection_controller_seeds(chain2, contract2),
        collection_record_seeds(chain1, contract1) != collection_controller_seeds(chain2, contract2),
{
    assert(tag_nft().len() == 3 && tag_nft_info().len() == 8 && tag_collection().len() == 10
        && tag_collection_info().len() == 15 && tag_bridge().len() == 6);
    assert(tag_nft() != tag_nft_info());
    assert(tag_collection_info() != tag_collection());
    assert(tag_collection_info()[10] == 95);
}

/// Seed tuples of one kind determine their identifying components: equal
/// tuples can only come from equal keys.
pub proof fn lemma_seeds_injective(
    chain1: Seq<u8>,
    contract1: Seq<u8>,
    id1: u64,
    chain2: Seq<u8>,
    contract2: Seq<u8>,
    id2: u64,
)
    ensures
        custody_slot_seeds(chain1, contract1, id1) == custody_slot_seeds(chain2, contract2, id2)
            ==> chain1 == chain2 && contract1 == contract2 && id1 == id2,
        nft_record_seeds(chain1, contract1, id1) == nft_record_seeds(chain2, contract2, id2)
            ==> chain1 == chain2 && contract1 == contract2 && id1 == id2,
        collection_record_seeds(chain1, contract1) == collection_record_seeds(chain2, contract2)
            ==> chain1 == chain2 && contract1 == contract2,
        collection_controller_seeds(chain1, contract1) == collection_controller_seeds(
            chain2,
            contract2,
        ) ==> chain1 == chain2 && contract1 == contract2,
{
    if custody_slot_seeds(chain1, contract1, id1) == custody_slot_seeds(chain2, contract2, id2) {
        assert(le8(id1) == custody_slot_seeds(chain1, contract1, id1)[1]);
        crate::bytes::lemma_le8_injective(id1, id2);
    }
    if nft_record_seeds(chain1, contract1, id1) == nft_record_seeds(chain2, contract2, id2) {
        assert(le8(id1) == nft_record_seeds(chain1, contract1, id1)[1]);
        crate::bytes::lemma_le8_injective(id1, id2);
    }
}

fn tag_bridge_bytes() -> (r: Vec<u8>)
    ensures
        r@ == tag_bridge(),
{
    let mut r: Vec<u8> = Vec::new();
    r.push(98);
    r.push(114);
    r.push(105);
    r.push(100);
    r.push(103);
    r.push(101);
    proof {
        assert(r@ =~= tag_bridge());
    }
    r
}

fn tag_nft_bytes() -> (r: Vec<u8>)
    ensures
        r@ == tag_nft(),
{
    let mut r: Vec<u8> = Vec::new();
    r.push(110);
    r.push(102);
    r.push(116);
    proof {
        assert(r@ =~= tag_nft());
    }
    r
}

fn tag_nft_info_bytes() -> (r: Vec<u8>)
    ensures
        r@ == tag_nft_info(),
{
    let mut r = tag_nft_bytes();
    r.push(95);
    r.push(105);
    r.push(110);
    r.push(102);
    r.push(111);
    proof {
        assert(r@ =~= tag_nft_info());
    }
    r
}

fn tag_collection_bytes() -> (r: Vec<u8>)
    ensures
        r@ == tag_collection(),
{
    let mut r: Vec<u8> = Vec::new();
    r.push(67);
    r.push(111);
    r.push(108);
    r.push(108);
    r.push(101);
    r.push(99);
    r.push(116);
    r.push(105);
    r.push(111);
    r.push(110);
    proof {
        assert(r@ =~= tag_collection());
    }
    r
}

fn tag_collection_info_bytes() -> (r: Vec<u8>)
    ensures
        r@ == tag_collection_info(),
{
    let mut r = tag_collection_bytes();
    r.push(95);
    r.push(73);
    r.push(110);
    r.push(102);
    r.push(111);
    proof {
        assert(r@ =~= tag_collection_info());
    }
    r
}

/// How a derivation request ended: the seed tuple it used, and its result.
pub open spec fn derived(
    r: Option<(Vec<u8>, u8)>,
    seeds: Seq<Seq<u8>>,
    program_id: Seq<u8>,
) -> bool {
    &&& program_id.len() != 32 ==> r is None
    &&& program_id.len() == 32 ==> (match r {
        None => pda_of(seeds, program_id) is None,
        Some(p) => pda_of(seeds, program_id) == Some((p.0@, p.1)) && p.0@.len() == 32,
    })
}

/// Address of the escrow root under `program_id`.
pub fn escrow_root_address(program_id: &Vec<u8>) -> (r: Option<(Vec<u8>, u8)>)
    ensures
        derived(r, escrow_root_seeds(), program_id@),
{
    let mut seeds: Vec<Vec<u8>> = Vec::new();
    seeds.push(tag_bridge_bytes());
    proof {
        assert(views_of(seeds@) =~= escrow_root_seeds());
    }
    try_find_pda(&seeds, program_id)
}

/// Address of the custody slot of (chain, contract, id) under `program_id`.
pub fn custody_slot_address(
    program_id: &Vec<u8>,
    chain: &Vec<u8>,
    contract: &Vec<u8>,
    id: u64,
) -> (r: Option<(Vec<u8>, u8)>)
    ensures
        derived(r, custody_slot_seeds(chain@, contract@, id), program_id@),
{
    let mut seeds: Vec<Vec<u8>> = Vec::new();
    seeds.push(tag_nft_bytes());
    seeds.push(u64_le_bytes(id));
    seeds.push(crate::bytes::clone_bytes(chain));
    seeds.push(crate::bytes::clone_bytes(contract));
    proof {
        assert(views_of(seeds@) =~= custody_slot_seeds(chain@, contract@, id));
    }
    try_find_pda(&seeds, program_id)
}

/// Address of the provenance record of (chain, contract, id).
pub fn nft_record_address(
    program_id: &Vec<u8>,
    chain: &Vec<u8>,
    contract: &Vec<u8>,
    id: u64,
) -> (r: Option<(Vec<u8>, u8)>)
    ensures
        derived(r, nft_record_seeds(chain@, contract@, id), program_id@),
{
    let mut seeds: Vec<Vec<u8>> = Vec::new();
    seeds.push(tag_nft_info_bytes());
    seeds.push(u64_le_bytes(id));
    seeds.push(crate::bytes::clone_bytes(chain));
    seeds.push(crate::bytes::clone_bytes(contract));
    proof {
        assert(views_of(seeds@) =~= nft_record_seeds(chain@, contract@, id));
    }
    try_find_pda(&seeds, program_id)
}

/// Address of the provenance record of a collection.
pub fn collection_record_address(
    program_id: &Vec<u8>,
    chain: &Vec<u8>,
    contract: &Vec<u8>,
) -> (r: Option<(Vec<u8>, u8)>)
    ensures
        derived(r, collection_record_seeds(chain@, contract@), program_id@),
{
    let mut seeds: Vec<Vec<u8>> = Vec::new();
    seeds.push(tag_collection_info_bytes());
    seeds.push(crate::bytes::clone_bytes(chain));
    seeds.push(crate::bytes::clone_bytes(contract));
    proof {
        assert(views_of(seeds@) =~= collection_record_seeds(chain@, contract@));
    }
    try_find_pda(&seeds, program_id)
}

/// Address of a collection's controller.
pub fn collection_controller_address(
    program_id: &Vec<u8>,
    chain: &Vec<u8>,
    contract: &Vec<u8>,
) -> (r: Option<(Vec<u8>, u8)>)
    ensures
        derived(r, collection_controller_seeds(chain@, contract@), program_id@),
{
    let mut seeds: Vec<Vec<u8>> = Vec::new();
    seeds.push(tag_collection_bytes());
    seeds.push(crate::bytes::clone_bytes(chain));
    seeds.push(crate::bytes::clone_bytes(contract));
    proof {
        assert(views_of(seeds@) =~= collection_controller_seeds(chain@, contract@));
    }
    try_find_pda(&seeds, program_id)
}

} // verus!

//! Identifying keys of the bridge's records.
//!
//! Every persisted record is identified by a tuple of byte strings — the
//! origin chain, the origin contract address, and, for per-asset records,
//! the asset id. The tuples are encoded unambiguously (each variable-length
//! component is preceded by its length) so that distinct tuples always give
//! distinct store keys.

use vstd::prelude::*;
use crate::bytes::{le8, u64_le_bytes, push_bytes};

verus! {

/// Longest byte string the address derivation accepts as a single seed.
pub const MAX_SEED_LEN: usize = 32;

/// Whether the identifying components fit the derivation's seed limits.
pub open spec fn seed_len_ok(chain: Seq<u8>, contract: Seq<u8>) -> bool {
    chain.len() <= MAX_SEED_LEN && contract.len() <= MAX_SEED_LEN
}

/// Key of records identified by (origin chain, origin contract).
pub open spec fn pair_key(chain: Seq<u8>, contract: Seq<u8>) -> Seq<u8> {
    le8(chain.len() as u64) + chain + le8(contract.len() as u64) + contract
}

/// Key of records identified by (origin chain, origin contract, asset id).
pub open spec fn triple_key(chain: Seq<u8>, contract: Seq<u8>, id: u64) -> Seq<u8> {
    pair_key(chain, contract) + le8(id)
}

/// Origin-chain identifier that marks an asset as native to the local
/// chain: the ASCII bytes of "SOL".
pub open spec fn native_chain() -> Seq<u8> {
    seq![83, 79, 76]
}

/// Distinct (chain, contract) pairs give distinct store keys: the length
/// prefixes make the encoding unambiguous.
pub proof fn lemma_pair_key_injective(c1: Seq<u8>, a1: Seq<u8>, c2: Seq<u8>, a2: Seq<u8>)
    requires
        seed_len_ok(c1, a1),
        seed_len_ok(c2, a2),
        pair_key(c1, a1) == pair_key(c2, a2),
    ensures
        c1 == c2,
        a1 == a2,
{
    let k = pair_key(c1, a1);
    let cl = c1.len() as int;
    let al = a1.len() as int;
    assert(k.subrange(0, 8) =~= le8(c1.len() as u64));
    assert(k.subrange(0, 8) =~= le8(c2.len() as u64));
    crate::bytes::lemma_le8_injective(c1.len() as u64, c2.len() as u64);
    assert(c1.len() == c2.len());
    assert(k.subrange(8, 8 + cl) =~= c1);
    assert(k.subrange(8, 8 + cl) =~= c2);
    assert(k.subrange(8 + cl, 16 + cl) =~= le8(a1.len() as u64));
    assert(k.subrange(8 + cl, 16 + cl) =~= le8(a2.len() as u64));
    crate::bytes::lemma_le8_injective(a1.len() as u64, a2.len() as u64);
    assert(a1.len() == a2.len());
    assert(k.subrange(16 + cl, 16 + cl + al) =~= a1);
    assert(k.subrange(16 + cl, 16 + cl + al) =~= a2);
}

/// Distinct (chain, contract, asset id) triples give distinct store keys.
pub proof fn lemma_triple_key_injective(
    c1: Seq<u8>,
    a1: Seq<u8>,
    i1: u64,
    c2: Seq<u8>,
    a2: Seq<u8>,
    i2: u64,
)
    requires
        seed_len_ok(c1, a1),
        seed_len_ok(c2, a2),
        triple_key(c1, a1, i1) == triple_key(c2, a2, i2),
    ensures
        c1 == c2,
        a1 == a2,
        i1 == i2,
{
    let p1 = pair_key(c1, a1);
    let p2 = pair_key(c2, a2);
    let k = triple_key(c1, a1, i1);
    assert(p1.len() == 16 + c1.len() + a1.len());
    assert(p2.len() == 16 + c2.len() + a2.len());
    assert(k.subrange(0, 8) =~= le8(c1.len() as u64));
    assert(k.subrange(0, 8) =~= le8(c2.len() as u64));
    crate::bytes::lemma_le8_injective(c1.len() as u64, c2.len() as u64);
    assert(k.subrange(8 + c1.len() as int, 16 + c1.len() as int) =~= le8(a1.len() as u64));
    assert(k.subrange(8 + c2.len() as int, 16 + c2.len() as int) =~= le8(a2.len() as u64));
    crate::bytes::lemma_le8_injective(a1.len() as u64, a2.len() as u64);
    assert(p1.len() == p2.len());
    assert(p1 =~= k.subrange(0, p1.len() as int));
    assert(p2 =~= k.subrange(0, p2.len() as int));
    lemma_pair_key_injective(c1, a1, c2, a2);
    assert(le8(i1) =~= k.subrange(p1.len() as int, k.len() as int));
    assert(le8(i2) =~= k.subrange(p2.len() as int, k.len() as int));
    crate::bytes::lemma_le8_injective(i1, i2);
}

/// Encodes the (origin chain, origin contract) key.
pub fn make_pair_key(chain: &Vec<u8>, contract: &Vec<u8>) -> (r: Vec<u8>)
    ensures
        r@ == pair_key(chain@, contract@),
{
    let mut r = u64_le_bytes(chain.len() as u64);
    push_bytes(&mut r, chain);
    let clen = u64_le_bytes(contract.len() as u64);
    push_bytes(&mut r, &clen);
    push_bytes(&mut r, contract);
    proof {
        assert(r@ =~= pair_key(chain@, contract@));
    }
    r
}

/// Encodes the (origin chain, origin contract, asset id) key.
pub fn make_triple_key(chain: &Vec<u8>, contract: &Vec<u8>, id: u64) -> (r: Vec<u8>)
    ensures
        r@ == triple_key(chain@, contract@, id),
{
    let mut r = make_pair_key(chain, contract);
    let idb = u64_le_bytes(id);
    push_bytes(&mut r, &idb);
    proof {
        assert(r@ =~= triple_key(chain@, contract@, id));
    }
    r
}

/// The native-chain sentinel as a byte vector.
pub fn native_chain_bytes() -> (r: Vec<u8>)
    ensures
        r@ == native_chain(),
{
    let mut r: Vec<u8> = Vec::new();
    r.push(83);
    r.push(79);
    r.push(76);
    proof {
        assert(r@ =~= native_chain());
    }
    r
}

/// Checks whether `chain` is the native-chain sentinel.
pub fn is_native_chain(chain: &Vec<u8>) -> (r: bool)
    ensures
        r == (chain@ == native_chain()),
{
    let sol = native_chain_bytes();
    crate::bytes::bytes_eq(chain, &sol)
}

} // verus!

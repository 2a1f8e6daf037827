use nft_bridge::addr;

fn bv(s: &str) -> Vec<u8> {
    s.as_bytes().to_vec()
}

fn program_id() -> Vec<u8> {
    vec![7u8; 32]
}

#[test]
fn derivation_is_deterministic() {
    let a = addr::escrow_root_address(&program_id()).expect("derivation must succeed");
    let b = addr::escrow_root_address(&program_id()).expect("derivation must succeed");
    assert_eq!(a, b);
    let c = addr::custody_slot_address(&program_id(), &bv("ETH"), &bv("0xabc"), 1).unwrap();
    let d = addr::custody_slot_address(&program_id(), &bv("ETH"), &bv("0xabc"), 1).unwrap();
    assert_eq!(c, d);
}

#[test]
fn derivation_depends_on_seeds() {
    let pid = program_id();
    let (chain, contract) = (bv("ETH"), bv("0xabc"));
    let root = addr::escrow_root_address(&pid).unwrap();
    let slot = addr::custody_slot_address(&pid, &chain, &contract, 1).unwrap();
    let slot2 = addr::custody_slot_address(&pid, &chain, &contract, 2).unwrap();
    let rec = addr::nft_record_address(&pid, &chain, &contract, 1).unwrap();
    let coll = addr::collection_record_address(&pid, &chain, &contract).unwrap();
    let ctrl = addr::collection_controller_address(&pid, &chain, &contract).unwrap();
    // entities of different kinds, or different keys, live at different
    // addresses
    assert_ne!(root.0, slot.0);
    assert_ne!(slot.0, slot2.0);
    assert_ne!(slot.0, rec.0);
    assert_ne!(rec.0, coll.0);
    assert_ne!(coll.0, ctrl.0);
    assert_ne!(root.0, ctrl.0);
}

#[test]
fn derivation_depends_on_program_identity() {
    let (chain, contract) = (bv("ETH"), bv("0xabc"));
    let a = addr::custody_slot_address(&vec![7u8; 32], &chain, &contract, 1).unwrap();
    let b = addr::custody_slot_address(&vec![8u8; 32], &chain, &contract, 1).unwrap();
    assert_ne!(a.0, b.0);
}

#[test]
fn derived_address_is_no_echo_of_the_seeds() {
    // the derivation hashes its seeds; it does not hand back any input
    let pid = program_id();
    let root = addr::escrow_root_address(&pid).unwrap();
    assert_eq!(root.0.len(), 32);
    assert_ne!(root.0, pid);
    assert_ne!(root.0, bv("bridge"));
    let slot = addr::custody_slot_address(&pid, &bv("ETH"), &bv("0xabc"), 1).unwrap();
    assert_ne!(slot.0, bv("ETH"));
    assert_ne!(slot.0, pid);
}

#[test]
fn bad_program_identity_is_rejected() {
    assert!(addr::escrow_root_address(&bv("short")).is_none());
    assert!(addr::custody_slot_address(&vec![1u8; 31], &bv("ETH"), &bv("0xabc"), 1).is_none());
}

#[test]
fn oversized_seed_fails_derivation() {
    // one seed above the scheme's length limit: no address exists
    let chain = vec![b'x'; 33];
    let r = addr::custody_slot_address(&program_id(), &chain, &bv("0xabc"), 1);
    assert!(r.is_none());
}

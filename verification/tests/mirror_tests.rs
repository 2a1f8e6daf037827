use nft_bridge::state::Bridge;
use nft_bridge::error::BridgeError;

fn bv(s: &str) -> Vec<u8> {
    s.as_bytes().to_vec()
}

fn admin() -> Vec<u8> {
    bv("admin-key")
}

fn fresh_bridge() -> Bridge {
    Bridge::new(admin())
}

#[test]
fn mirror_collection_scenario() {
    // Record the origin, mint the mirror collection, describe it, mint an
    // item under it, and verify the item's membership.
    let mut b = fresh_bridge();
    let (chain, contract) = (bv("ETH"), bv("0xabc"));
    assert_eq!(b.store_collection_info(&chain, &contract), Ok(()));

    assert_eq!(b.create_collection_nft(&chain, &contract, &admin()), Ok(()));
    assert_eq!(b.mirror_units_of(&chain, &contract), 1);

    // repeating the mint is rejected: the unit supply stays at one
    assert_eq!(
        b.create_collection_nft(&chain, &contract, &admin()),
        Err(BridgeError::InvariantViolation)
    );
    assert_eq!(b.mirror_units_of(&chain, &contract), 1);

    assert_eq!(
        b.create_collection_nft2(&bv("uri://c"), &bv("Name"), &bv("SYM"), &chain, &contract, &admin()),
        Ok(())
    );
    let m = b.mirror_collection_of(&chain, &contract).expect("mirror must exist");
    assert_eq!(m.units, 1);
    let meta = m.metadata.as_ref().expect("metadata must be attached");
    assert_eq!(meta.uri, bv("uri://c"));
    assert_eq!(meta.name, bv("Name"));
    assert_eq!(meta.symbol, bv("SYM"));
    assert!(m.has_master_edition);
    assert!(m.creator_signed);
    assert!(m.is_sized);

    let item_mint = bv("item-mint-1");
    let receiver = bv("item-receiver");
    assert_eq!(
        b.create_nft_in_collection(
            &bv("uri://i"),
            &bv("Item"),
            &bv("ITM"),
            &chain,
            &contract,
            &item_mint,
            &receiver,
            &admin()
        ),
        Ok(())
    );
    let item = b.mirror_item_of(&item_mint).expect("item must exist");
    assert_eq!(item.units, 1);
    assert!(!item.verified);
    assert_eq!(item.collection_chain, chain);
    assert_eq!(b.token_balance_of(&receiver), 1);

    assert_eq!(b.verify_nft_in_collection(&chain, &contract, &item_mint, &admin()), Ok(()));
    let item = b.mirror_item_of(&item_mint).unwrap();
    assert!(item.verified);
    assert_eq!(item.units, 1);
}

#[test]
fn native_collection_is_noop() {
    let mut b = fresh_bridge();
    let (chain, contract) = (bv("SOL"), bv("0xabc"));
    assert_eq!(b.store_collection_info(&chain, &contract), Ok(()));
    assert_eq!(b.create_collection_nft(&chain, &contract, &admin()), Ok(()));
    assert_eq!(b.mirror_units_of(&chain, &contract), 0);
    assert!(b.mirror_collection_of(&chain, &contract).is_none());
    let item_mint = bv("item-mint-1");
    assert_eq!(
        b.create_nft_in_collection(
            &bv("u"),
            &bv("n"),
            &bv("s"),
            &chain,
            &contract,
            &item_mint,
            &bv("recv"),
            &admin()
        ),
        Ok(())
    );
    assert!(b.mirror_item_of(&item_mint).is_none());
    assert_eq!(b.verify_nft_in_collection(&chain, &contract, &item_mint, &admin()), Ok(()));
}

#[test]
fn create_collection_without_record_rejected() {
    let mut b = fresh_bridge();
    let r = b.create_collection_nft(&bv("ETH"), &bv("0xabc"), &admin());
    assert_eq!(r, Err(BridgeError::NotFound));
}

#[test]
fn verify_before_create_rejected() {
    let mut b = fresh_bridge();
    let (chain, contract) = (bv("ETH"), bv("0xabc"));
    assert_eq!(b.store_collection_info(&chain, &contract), Ok(()));
    let r = b.verify_nft_in_collection(&chain, &contract, &bv("item-mint-1"), &admin());
    assert_eq!(r, Err(BridgeError::NotFound));
}

#[test]
fn verify_unfinalized_collection_rejected() {
    let mut b = fresh_bridge();
    let (chain, contract) = (bv("ETH"), bv("0xabc"));
    assert_eq!(b.store_collection_info(&chain, &contract), Ok(()));
    assert_eq!(b.create_collection_nft(&chain, &contract, &admin()), Ok(()));
    // phase two never ran: no metadata, no master edition, not sized
    let r = b.verify_nft_in_collection(&chain, &contract, &bv("item-mint-1"), &admin());
    assert_eq!(r, Err(BridgeError::MalformedInput));
}

#[test]
fn create_item_before_collection_rejected() {
    let mut b = fresh_bridge();
    let (chain, contract) = (bv("ETH"), bv("0xabc"));
    assert_eq!(b.store_collection_info(&chain, &contract), Ok(()));
    let r = b.create_nft_in_collection(
        &bv("u"),
        &bv("n"),
        &bv("s"),
        &chain,
        &contract,
        &bv("item-mint-1"),
        &bv("recv"),
        &admin(),
    );
    assert_eq!(r, Err(BridgeError::NotFound));
}

#[test]
fn describe_before_mint_rejected() {
    let mut b = fresh_bridge();
    let (chain, contract) = (bv("ETH"), bv("0xabc"));
    assert_eq!(b.store_collection_info(&chain, &contract), Ok(()));
    let r = b.create_collection_nft2(&bv("u"), &bv("n"), &bv("s"), &chain, &contract, &admin());
    assert_eq!(r, Err(BridgeError::NotFound));
}

#[test]
fn second_describe_rejected() {
    let mut b = fresh_bridge();
    let (chain, contract) = (bv("ETH"), bv("0xabc"));
    assert_eq!(b.store_collection_info(&chain, &contract), Ok(()));
    assert_eq!(b.create_collection_nft(&chain, &contract, &admin()), Ok(()));
    assert_eq!(
        b.create_collection_nft2(&bv("u"), &bv("n"), &bv("s"), &chain, &contract, &admin()),
        Ok(())
    );
    let r = b.create_collection_nft2(&bv("u2"), &bv("n2"), &bv("s2"), &chain, &contract, &admin());
    assert_eq!(r, Err(BridgeError::InvariantViolation));
    // the first descriptors survive
    let m = b.mirror_collection_of(&chain, &contract).unwrap();
    assert_eq!(m.metadata.as_ref().unwrap().uri, bv("u"));
}

#[test]
fn duplicate_item_mint_rejected() {
    let mut b = fresh_bridge();
    let (chain, contract) = (bv("ETH"), bv("0xabc"));
    assert_eq!(b.store_collection_info(&chain, &contract), Ok(()));
    assert_eq!(b.create_collection_nft(&chain, &contract, &admin()), Ok(()));
    let item_mint = bv("item-mint-1");
    assert_eq!(
        b.create_nft_in_collection(
            &bv("u"),
            &bv("n"),
            &bv("s"),
            &chain,
            &contract,
            &item_mint,
            &bv("recv"),
            &admin()
        ),
        Ok(())
    );
    let r = b.create_nft_in_collection(
        &bv("u"),
        &bv("n"),
        &bv("s"),
        &chain,
        &contract,
        &item_mint,
        &bv("recv2"),
        &admin(),
    );
    assert_eq!(r, Err(BridgeError::InvariantViolation));
    assert_eq!(b.mirror_item_of(&item_mint).unwrap().units, 1);
    assert_eq!(b.token_balance_of(&bv("recv2")), 0);
}

#[test]
fn verify_item_of_other_collection_rejected() {
    let mut b = fresh_bridge();
    let (chain, c1, c2) = (bv("ETH"), bv("0xabc"), bv("0xdef"));
    for c in [&c1, &c2] {
        assert_eq!(b.store_collection_info(&chain, c), Ok(()));
        assert_eq!(b.create_collection_nft(&chain, c, &admin()), Ok(()));
        assert_eq!(
            b.create_collection_nft2(&bv("u"), &bv("n"), &bv("s"), &chain, c, &admin()),
            Ok(())
        );
    }
    let item_mint = bv("item-mint-1");
    assert_eq!(
        b.create_nft_in_collection(
            &bv("u"),
            &bv("n"),
            &bv("s"),
            &chain,
            &c1,
            &item_mint,
            &bv("recv"),
            &admin()
        ),
        Ok(())
    );
    // the item was minted under c1's controller; c2 cannot claim it
    let r = b.verify_nft_in_collection(&chain, &c2, &item_mint, &admin());
    assert_eq!(r, Err(BridgeError::MalformedInput));
    assert!(!b.mirror_item_of(&item_mint).unwrap().verified);
}

#[test]
fn reverify_rejected() {
    let mut b = fresh_bridge();
    let (chain, contract) = (bv("ETH"), bv("0xabc"));
    assert_eq!(b.store_collection_info(&chain, &contract), Ok(()));
    assert_eq!(b.create_collection_nft(&chain, &contract, &admin()), Ok(()));
    assert_eq!(
        b.create_collection_nft2(&bv("u"), &bv("n"), &bv("s"), &chain, &contract, &admin()),
        Ok(())
    );
    let item_mint = bv("item-mint-1");
    assert_eq!(
        b.create_nft_in_collection(
            &bv("u"),
            &bv("n"),
            &bv("s"),
            &chain,
            &contract,
            &item_mint,
            &bv("recv"),
            &admin()
        ),
        Ok(())
    );
    assert_eq!(b.verify_nft_in_collection(&chain, &contract, &item_mint, &admin()), Ok(()));
    let r = b.verify_nft_in_collection(&chain, &contract, &item_mint, &admin());
    assert_eq!(r, Err(BridgeError::InvariantViolation));
}

#[test]
fn collection_ops_wrong_signer_rejected() {
    let mut b = fresh_bridge();
    let (chain, contract) = (bv("ETH"), bv("0xabc"));
    assert_eq!(b.store_collection_info(&chain, &contract), Ok(()));
    let bad = bv("intruder");
    assert_eq!(
        b.create_collection_nft(&chain, &contract, &bad),
        Err(BridgeError::AuthorityError)
    );
    assert_eq!(
        b.create_collection_nft2(&bv("u"), &bv("n"), &bv("s"), &chain, &contract, &bad),
        Err(BridgeError::AuthorityError)
    );
    assert_eq!(
        b.create_nft_in_collection(
            &bv("u"),
            &bv("n"),
            &bv("s"),
            &chain,
            &contract,
            &bv("m"),
            &bv("r"),
            &bad
        ),
        Err(BridgeError::AuthorityError)
    );
    assert_eq!(
        b.verify_nft_in_collection(&chain, &contract, &bv("m"), &bad),
        Err(BridgeError::AuthorityError)
    );
}

#[test]
fn store_collection_info_overwrites() {
    let mut b = fresh_bridge();
    let (chain, contract) = (bv("ETH"), bv("0xabc"));
    assert_eq!(b.store_collection_info(&chain, &contract), Ok(()));
    let c = b.collection_info_of(&chain, &contract).unwrap();
    assert_eq!(c.origin_chain, chain);
    assert_eq!(c.origin_contract_address, contract);
    // recording again is allowed and overwrites (last write wins)
    assert_eq!(b.store_collection_info(&chain, &contract), Ok(()));
    assert!(b.collection_info_of(&chain, &contract).is_some());
}

#[test]
fn store_collection_info_seed_too_long() {
    let mut b = fresh_bridge();
    let contract = vec![b'y'; 40];
    let r = b.store_collection_info(&bv("ETH"), &contract);
    assert_eq!(r, Err(BridgeError::MalformedInput));
    assert!(b.collection_info_of(&bv("ETH"), &contract).is_none());
}

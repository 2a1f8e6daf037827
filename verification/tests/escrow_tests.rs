use nft_bridge::state::Bridge;
use nft_bridge::error::BridgeError;

fn bv(s: &str) -> Vec<u8> {
    s.as_bytes().to_vec()
}

fn admin() -> Vec<u8> {
    bv("admin-key")
}

fn fresh_bridge() -> Bridge {
    Bridge::new(admin())
}

#[test]
fn lock_then_unlock_scenario() {
    // Lock asset 1 from chain "ETH"/contract "0xabc" with fee 0, then unlock.
    let mut b = fresh_bridge();
    let chain = bv("ETH");
    let contract = bv("0xabc");
    let mint = bv("mint-A");
    let sender = bv("sender-holding");
    let receiver = bv("receiver-holding");
    b.fund_token_account(&sender, &mint, 1);

    let r = b.initialize_and_lock_nft_fee(&chain, &contract, 1, 0, &bv("coll-1"), &bv("src-1"), &bv("ETH"), &bv("0xdest"), &mint, &sender, &bv(""), &bv(""));
    assert_eq!(r, Ok(()));
    assert_eq!(b.custody_units_of(&chain, &contract, 1), 1);
    assert_eq!(b.token_balance_of(&sender), 0);
    let rec = b.nft_record_of(&chain, &contract, 1).expect("record must exist after lock");
    assert_eq!(rec.mint_address, mint);

    let r = b.unlock_nft(&chain, &contract, 1, &bv("coll-1"), &bv("ETH"), &bv("src-1"), &bv("0xdest"), &bv("tx-1"), &mint, &receiver, &admin());
    assert_eq!(r, Ok(()));
    assert_eq!(b.custody_units_of(&chain, &contract, 1), 0);
    assert_eq!(b.token_balance_of(&receiver), 1);
    let recv = b.token_account_of(&receiver).expect("receiver holding must exist");
    assert_eq!(recv.mint, mint);
    assert_eq!(recv.balance, 1);
}

#[test]
fn double_lock_rejected() {
    let mut b = fresh_bridge();
    let (chain, contract, mint) = (bv("ETH"), bv("0xabc"), bv("mint-A"));
    let sender = bv("sender-holding");
    b.fund_token_account(&sender, &mint, 2);
    let r = b.initialize_and_lock_nft_fee(&chain, &contract, 7, 0, &bv("coll-1"), &bv("src-1"), &bv("ETH"), &bv("0xdest"), &mint, &sender, &bv(""), &bv(""));
    assert_eq!(r, Ok(()));
    let r = b.initialize_and_lock_nft_fee(&chain, &contract, 7, 0, &bv("coll-1"), &bv("src-1"), &bv("ETH"), &bv("0xdest"), &mint, &sender, &bv(""), &bv(""));
    assert_eq!(r, Err(BridgeError::InvariantViolation));
    assert_eq!(b.custody_units_of(&chain, &contract, 7), 1);
    assert_eq!(b.token_balance_of(&sender), 1);
}

#[test]
fn unlock_before_lock_rejected() {
    let mut b = fresh_bridge();
    let (chain, contract, mint) = (bv("ETH"), bv("0xabc"), bv("mint-A"));
    let r = b.unlock_nft(&chain, &contract, 1, &bv("coll-1"), &bv("ETH"), &bv("src-1"), &bv("0xdest"), &bv("tx-1"), &mint, &bv("recv"), &admin());
    assert_eq!(r, Err(BridgeError::InvariantViolation));
}

#[test]
fn unlock_after_unlock_rejected() {
    let mut b = fresh_bridge();
    let (chain, contract, mint) = (bv("ETH"), bv("0xabc"), bv("mint-A"));
    let sender = bv("sender");
    b.fund_token_account(&sender, &mint, 1);
    assert_eq!(
        b.initialize_and_lock_nft_fee(&chain, &contract, 1, 0, &bv("coll-1"), &bv("src-1"), &bv("ETH"), &bv("0xdest"), &mint, &sender, &bv(""), &bv("")),
        Ok(())
    );
    assert_eq!(b.unlock_nft(&chain, &contract, 1, &bv("coll-1"), &bv("ETH"), &bv("src-1"), &bv("0xdest"), &bv("tx-1"), &mint, &bv("r1"), &admin()), Ok(()));
    let r = b.unlock_nft(&chain, &contract, 1, &bv("coll-1"), &bv("ETH"), &bv("src-1"), &bv("0xdest"), &bv("tx-1"), &mint, &bv("r2"), &admin());
    assert_eq!(r, Err(BridgeError::InvariantViolation));
    assert_eq!(b.token_balance_of(&bv("r2")), 0);
}

#[test]
fn initialize_bridge_idempotent() {
    let mut b = fresh_bridge();
    assert!(!b.is_initialized());
    assert_eq!(b.initialize_bridge(&admin()), Ok(()));
    assert!(b.is_initialized());
    assert_eq!(b.initialize_bridge(&admin()), Ok(()));
    assert!(b.is_initialized());
}

#[test]
fn initialize_bridge_wrong_signer() {
    let mut b = fresh_bridge();
    assert_eq!(b.initialize_bridge(&bv("someone-else")), Err(BridgeError::AuthorityError));
    assert!(!b.is_initialized());
}

#[test]
fn lock_missing_holding_rejected() {
    let mut b = fresh_bridge();
    let (chain, contract, mint) = (bv("ETH"), bv("0xabc"), bv("mint-A"));
    let r = b.initialize_and_lock_nft_fee(&chain, &contract, 1, 0, &bv("coll-1"), &bv("src-1"), &bv("ETH"), &bv("0xdest"), &mint, &bv("nobody"), &bv(""), &bv(""));
    assert_eq!(r, Err(BridgeError::NotFound));
}

#[test]
fn lock_empty_holding_rejected() {
    let mut b = fresh_bridge();
    let (chain, contract, mint) = (bv("ETH"), bv("0xabc"), bv("mint-A"));
    let sender = bv("sender");
    b.fund_token_account(&sender, &mint, 0);
    let r = b.initialize_and_lock_nft_fee(&chain, &contract, 1, 0, &bv("coll-1"), &bv("src-1"), &bv("ETH"), &bv("0xdest"), &mint, &sender, &bv(""), &bv(""));
    assert_eq!(r, Err(BridgeError::InvariantViolation));
}

#[test]
fn lock_wrong_mint_rejected() {
    let mut b = fresh_bridge();
    let (chain, contract) = (bv("ETH"), bv("0xabc"));
    let sender = bv("sender");
    b.fund_token_account(&sender, &bv("mint-B"), 1);
    let r = b.initialize_and_lock_nft_fee(&chain, &contract, 1, 0, &bv("coll-1"), &bv("src-1"), &bv("ETH"), &bv("0xdest"), &bv("mint-A"), &sender, &bv(""), &bv(""));
    assert_eq!(r, Err(BridgeError::MalformedInput));
}

#[test]
fn lock_seed_too_long_rejected() {
    let mut b = fresh_bridge();
    let chain = vec![b'x'; 33];
    let (contract, mint) = (bv("0xabc"), bv("mint-A"));
    let sender = bv("sender");
    b.fund_token_account(&sender, &mint, 1);
    let r = b.initialize_and_lock_nft_fee(&chain, &contract, 1, 0, &bv("coll-1"), &bv("src-1"), &bv("ETH"), &bv("0xdest"), &mint, &sender, &bv(""), &bv(""));
    assert_eq!(r, Err(BridgeError::MalformedInput));
    assert_eq!(b.token_balance_of(&sender), 1);
}

#[test]
fn lock_with_fee_moves_value() {
    let mut b = fresh_bridge();
    let (chain, contract, mint) = (bv("ETH"), bv("0xabc"), bv("mint-A"));
    let sender = bv("sender");
    let payer = bv("payer");
    let payee = bv("payee");
    b.fund_token_account(&sender, &mint, 1);
    b.fund_lamports(&payer, 100);
    let r = b.initialize_and_lock_nft_fee(&chain, &contract, 1, 30, &bv("coll-1"), &bv("src-1"), &bv("ETH"), &bv("0xdest"), &mint, &sender, &payer, &payee);
    assert_eq!(r, Ok(()));
    assert_eq!(b.lamports_balance_of(&payer), 70);
    assert_eq!(b.lamports_balance_of(&payee), 30);
    assert_eq!(b.custody_units_of(&chain, &contract, 1), 1);
}

#[test]
fn lock_fee_insufficient_rejected_atomically() {
    let mut b = fresh_bridge();
    let (chain, contract, mint) = (bv("ETH"), bv("0xabc"), bv("mint-A"));
    let sender = bv("sender");
    let payer = bv("payer");
    b.fund_token_account(&sender, &mint, 1);
    b.fund_lamports(&payer, 10);
    let r = b.initialize_and_lock_nft_fee(&chain, &contract, 1, 30, &bv("coll-1"), &bv("src-1"), &bv("ETH"), &bv("0xdest"), &mint, &sender, &payer, &bv("payee"));
    assert_eq!(r, Err(BridgeError::InvariantViolation));
    // nothing moved: the request aborted as a whole
    assert_eq!(b.token_balance_of(&sender), 1);
    assert_eq!(b.custody_units_of(&chain, &contract, 1), 0);
    assert_eq!(b.lamports_balance_of(&payer), 10);
    assert!(b.nft_record_of(&chain, &contract, 1).is_none());
}

#[test]
fn lock_fee_to_self_keeps_balance() {
    let mut b = fresh_bridge();
    let (chain, contract, mint) = (bv("ETH"), bv("0xabc"), bv("mint-A"));
    let sender = bv("sender");
    let payer = bv("payer");
    b.fund_token_account(&sender, &mint, 1);
    b.fund_lamports(&payer, 50);
    let r = b.initialize_and_lock_nft_fee(&chain, &contract, 1, 20, &bv("coll-1"), &bv("src-1"), &bv("ETH"), &bv("0xdest"), &mint, &sender, &payer, &payer);
    assert_eq!(r, Ok(()));
    assert_eq!(b.lamports_balance_of(&payer), 50);
}

#[test]
fn lock_without_fee_variant() {
    let mut b = fresh_bridge();
    let (chain, contract, mint) = (bv("ETH"), bv("0xabc"), bv("mint-A"));
    let sender = bv("sender");
    b.fund_token_account(&sender, &mint, 1);
    let r = b.initialize_and_lock_nft(&chain, &contract, 9, &bv("coll-1"), &bv("src-1"), &bv("ETH"), &bv("0xdest"), &mint, &sender);
    assert_eq!(r, Ok(()));
    assert_eq!(b.custody_units_of(&chain, &contract, 9), 1);
}

#[test]
fn relock_after_unlock_cycles() {
    let mut b = fresh_bridge();
    let (chain, contract, mint) = (bv("ETH"), bv("0xabc"), bv("mint-A"));
    let sender = bv("sender");
    b.fund_token_account(&sender, &mint, 1);
    assert_eq!(
        b.initialize_and_lock_nft_fee(&chain, &contract, 1, 0, &bv("coll-1"), &bv("src-1"), &bv("ETH"), &bv("0xdest"), &mint, &sender, &bv(""), &bv("")),
        Ok(())
    );
    assert_eq!(b.unlock_nft(&chain, &contract, 1, &bv("coll-1"), &bv("ETH"), &bv("src-1"), &bv("0xdest"), &bv("tx-1"), &mint, &sender, &admin()), Ok(()));
    assert_eq!(b.token_balance_of(&sender), 1);
    assert_eq!(
        b.initialize_and_lock_nft_fee(&chain, &contract, 1, 0, &bv("coll-1"), &bv("src-1"), &bv("ETH"), &bv("0xdest"), &mint, &sender, &bv(""), &bv("")),
        Ok(())
    );
    assert_eq!(b.custody_units_of(&chain, &contract, 1), 1);
}

#[test]
fn unlock_wrong_signer_rejected() {
    let mut b = fresh_bridge();
    let (chain, contract, mint) = (bv("ETH"), bv("0xabc"), bv("mint-A"));
    let sender = bv("sender");
    b.fund_token_account(&sender, &mint, 1);
    assert_eq!(
        b.initialize_and_lock_nft_fee(&chain, &contract, 1, 0, &bv("coll-1"), &bv("src-1"), &bv("ETH"), &bv("0xdest"), &mint, &sender, &bv(""), &bv("")),
        Ok(())
    );
    let r = b.unlock_nft(&chain, &contract, 1, &bv("coll-1"), &bv("ETH"), &bv("src-1"), &bv("0xdest"), &bv("tx-1"), &mint, &bv("recv"), &bv("intruder"));
    assert_eq!(r, Err(BridgeError::AuthorityError));
    assert_eq!(b.custody_units_of(&chain, &contract, 1), 1);
}

#[test]
fn unlock_wrong_mint_rejected() {
    let mut b = fresh_bridge();
    let (chain, contract, mint) = (bv("ETH"), bv("0xabc"), bv("mint-A"));
    let sender = bv("sender");
    b.fund_token_account(&sender, &mint, 1);
    assert_eq!(
        b.initialize_and_lock_nft_fee(&chain, &contract, 1, 0, &bv("coll-1"), &bv("src-1"), &bv("ETH"), &bv("0xdest"), &mint, &sender, &bv(""), &bv("")),
        Ok(())
    );
    let r = b.unlock_nft(&chain, &contract, 1, &bv("coll-1"), &bv("ETH"), &bv("src-1"), &bv("0xdest"), &bv("tx-1"), &bv("mint-B"), &bv("recv"), &admin());
    assert_eq!(r, Err(BridgeError::MalformedInput));
}

#[test]
fn store_nft_info_upserts() {
    let mut b = fresh_bridge();
    let (chain, contract) = (bv("ETH"), bv("0xabc"));
    assert_eq!(
        b.store_nft_info_in_bridge(&chain, &contract, &bv("mint-A"), 4, &admin()),
        Ok(())
    );
    assert_eq!(b.nft_record_of(&chain, &contract, 4).unwrap().mint_address, bv("mint-A"));
    // last write wins
    assert_eq!(
        b.store_nft_info_in_bridge(&chain, &contract, &bv("mint-B"), 4, &admin()),
        Ok(())
    );
    assert_eq!(b.nft_record_of(&chain, &contract, 4).unwrap().mint_address, bv("mint-B"));
}

#[test]
fn store_nft_info_wrong_signer() {
    let mut b = fresh_bridge();
    let r = b.store_nft_info_in_bridge(&bv("ETH"), &bv("0xabc"), &bv("mint-A"), 4, &bv("nobody"));
    assert_eq!(r, Err(BridgeError::AuthorityError));
    assert!(b.nft_record_of(&bv("ETH"), &bv("0xabc"), 4).is_none());
}

#[test]
fn lock_fee_overflowing_payee_rejected() {
    let mut b = fresh_bridge();
    let (chain, contract, mint) = (bv("ETH"), bv("0xabc"), bv("mint-A"));
    let sender = bv("sender");
    let payer = bv("payer");
    let payee = bv("payee");
    b.fund_token_account(&sender, &mint, 1);
    b.fund_lamports(&payer, 10);
    b.fund_lamports(&payee, u64::MAX);
    let r = b.initialize_and_lock_nft_fee(&chain, &contract, 1, 1, &bv("coll-1"), &bv("src-1"), &bv("ETH"), &bv("0xdest"), &mint, &sender, &payer, &payee);
    assert_eq!(r, Err(BridgeError::InvariantViolation));
    assert_eq!(b.lamports_balance_of(&payee), u64::MAX);
    assert_eq!(b.custody_units_of(&chain, &contract, 1), 0);
}

#[test]
fn unlock_into_full_holding_rejected() {
    let mut b = fresh_bridge();
    let (chain, contract, mint) = (bv("ETH"), bv("0xabc"), bv("mint-A"));
    let sender = bv("sender");
    let receiver = bv("receiver");
    b.fund_token_account(&sender, &mint, 1);
    b.fund_token_account(&receiver, &mint, u64::MAX);
    assert_eq!(
        b.initialize_and_lock_nft_fee(&chain, &contract, 1, 0, &bv("coll-1"), &bv("src-1"), &bv("ETH"), &bv("0xdest"), &mint, &sender, &bv(""), &bv("")),
        Ok(())
    );
    let r = b.unlock_nft(&chain, &contract, 1, &bv("coll-1"), &bv("ETH"), &bv("src-1"), &bv("0xdest"), &bv("tx-1"), &mint, &receiver, &admin());
    assert_eq!(r, Err(BridgeError::InvariantViolation));
    assert_eq!(b.custody_units_of(&chain, &contract, 1), 1);
}

#[test]
fn distinct_assets_do_not_interfere() {
    let mut b = fresh_bridge();
    let (chain, contract, mint) = (bv("ETH"), bv("0xabc"), bv("mint-A"));
    let sender = bv("sender");
    b.fund_token_account(&sender, &mint, 1);
    assert_eq!(
        b.initialize_and_lock_nft_fee(&chain, &contract, 1, 0, &bv("coll-1"), &bv("src-1"), &bv("ETH"), &bv("0xdest"), &mint, &sender, &bv(""), &bv("")),
        Ok(())
    );
    assert_eq!(b.custody_units_of(&chain, &contract, 2), 0);
    assert_eq!(b.custody_units_of(&bv("BSC"), &contract, 1), 0);
    assert!(b.nft_record_of(&chain, &bv("0xdef"), 1).is_none());
}

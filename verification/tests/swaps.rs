use edgeware_bridge::account::AccountId;
use edgeware_bridge::bridge::EdgewareBridge;
use edgeware_bridge::codec::{hash_message, SwapMessage};
use edgeware_bridge::erc20token::ERC20Token;
use edgeware_bridge::state::{BridgeError, Payment, SwapOutcome};

const OWNER: AccountId = [1u8; 32];
const BRIDGE: AccountId = [2u8; 32];
const ALICE: AccountId = [3u8; 32];
const BOB: AccountId = [4u8; 32];
const CAROL: AccountId = [5u8; 32];
const TOKEN: AccountId = [6u8; 32];
const OTHER: AccountId = [7u8; 32];
const RECEIVER: AccountId = [9u8; 32];
const NATIVE: AccountId = [0u8; 32];

fn ledger() -> ERC20Token {
    let mut token = ERC20Token::new(OWNER, String::from("Wrapped"), String::from("WRP"));
    token.add_bridge_address(OWNER, BRIDGE).unwrap();
    token
}

fn bridge(threshold: u16) -> EdgewareBridge {
    let mut b =
        EdgewareBridge::new(OWNER, BRIDGE, 1000, threshold, 3, 10, 1000, ledger(), 1, 10).unwrap();
    b.add_validator(OWNER, ALICE).unwrap();
    b.add_validator(OWNER, BOB).unwrap();
    b.add_validator(OWNER, CAROL).unwrap();
    b.add_token(OWNER, 1000, TOKEN, 500).unwrap();
    b
}

fn message(asset: AccountId, amount: u128) -> SwapMessage {
    SwapMessage {
        chain_id: 1,
        receiver: RECEIVER,
        sender: String::from("0xsender"),
        timestamp: 900,
        amount,
        asset,
        transfer_nonce: 1,
    }
}

#[test]
fn two_validators_release_a_native_swap() {
    let mut b =
        EdgewareBridge::new(OWNER, BRIDGE, 1000, 2, 3, 10, 1000, ledger(), 1, 10).unwrap();
    b.add_validator(OWNER, ALICE).unwrap();
    b.add_validator(OWNER, BOB).unwrap();
    let m = message(NATIVE, 100);
    let hash = hash_message(&m).unwrap();
    assert!(!b.is_swap_request_in(hash.clone()));
    assert_eq!(b.get_count_of_approvals(hash.clone()), 0);

    assert_eq!(b.payment_due(ALICE, 1000, &m), None);
    assert_eq!(
        b.request_swap(ALICE, 1000, m.clone(), false),
        Ok(SwapOutcome::Recorded { approvals: 1 })
    );
    assert!(b.is_swap_request_in(hash.clone()));
    assert_eq!(b.get_count_of_approvals(hash.clone()), 1);
    assert_eq!(b.get_validators_who_approved(&hash), Some(vec![ALICE]));
    assert_eq!(b.get_request_swaps(), vec![hash.clone()]);

    assert_eq!(b.payment_due(BOB, 1000, &m), Some(Payment { receiver: RECEIVER, amount: 90 }));
    assert_eq!(
        b.request_swap(BOB, 1000, m.clone(), true),
        Ok(SwapOutcome::Released { asset: NATIVE, receiver: RECEIVER, amount: 90 })
    );
    assert!(!b.is_swap_request_in(hash.clone()));
    assert_eq!(b.get_count_of_approvals(hash.clone()), 0);
    assert_eq!(b.get_validators_who_approved(&hash), None);
    assert_eq!(b.get_validator_rewards(ALICE), 5);
    assert_eq!(b.get_validator_rewards(BOB), 5);

    assert_eq!(
        b.request_swap(BOB, 1000, m.clone(), false),
        Ok(SwapOutcome::Recorded { approvals: 1 })
    );
    assert_eq!(b.get_validators_who_approved(&hash), Some(vec![BOB]));
    assert_eq!(
        b.request_swap(ALICE, 1000, m.clone(), true),
        Ok(SwapOutcome::Released { asset: NATIVE, receiver: RECEIVER, amount: 90 })
    );
    assert!(!b.is_swap_request_in(hash));
    assert_eq!(b.get_validator_rewards(ALICE), 10);
}

#[test]
fn a_second_approval_of_the_same_validator_is_a_duplicate() {
    let mut b = bridge(3);
    let m = message(NATIVE, 100);
    let hash = hash_message(&m).unwrap();
    assert_eq!(
        b.request_swap(ALICE, 1000, m.clone(), false),
        Ok(SwapOutcome::Recorded { approvals: 1 })
    );
    assert_eq!(
        b.request_swap(ALICE, 1000, m.clone(), false),
        Err(BridgeError::DuplicateApproval)
    );
    assert_eq!(
        b.request_swap(ALICE, 1000, m.clone(), true),
        Err(BridgeError::DuplicateApproval)
    );
    assert_eq!(b.get_validators_who_approved(&hash), Some(vec![ALICE]));
    assert_eq!(
        b.request_swap(BOB, 1000, m.clone(), false),
        Ok(SwapOutcome::Recorded { approvals: 2 })
    );
    assert_eq!(
        b.request_swap(ALICE, 1000, m.clone(), true),
        Err(BridgeError::DuplicateApproval)
    );
    assert_eq!(b.request_swap(BOB, 1000, m.clone(), true), Err(BridgeError::DuplicateApproval));
    assert_eq!(b.payment_due(BOB, 1000, &m), None);
    assert_eq!(b.get_validators_who_approved(&hash), Some(vec![ALICE, BOB]));
    assert_eq!(b.get_count_of_approvals(hash), 2);
}

#[test]
fn the_third_of_three_approvals_releases() {
    let mut b = bridge(3);
    let m = message(NATIVE, 200);
    let hash = hash_message(&m).unwrap();
    assert_eq!(
        b.request_swap(CAROL, 1000, m.clone(), false),
        Ok(SwapOutcome::Recorded { approvals: 1 })
    );
    assert_eq!(b.payment_due(ALICE, 1000, &m), None);
    assert_eq!(
        b.request_swap(ALICE, 1000, m.clone(), true),
        Ok(SwapOutcome::Recorded { approvals: 2 })
    );
    assert_eq!(b.get_validators_who_approved(&hash), Some(vec![CAROL, ALICE]));
    assert_eq!(b.get_validator_rewards(ALICE), 0);
    assert_eq!(b.payment_due(BOB, 1000, &m), Some(Payment { receiver: RECEIVER, amount: 180 }));
    assert_eq!(
        b.request_swap(BOB, 1000, m.clone(), true),
        Ok(SwapOutcome::Released { asset: NATIVE, receiver: RECEIVER, amount: 180 })
    );
    assert!(!b.is_swap_request_in(hash));
    assert_eq!(b.get_validator_rewards(ALICE), 6);
    assert_eq!(b.get_validator_rewards(BOB), 6);
    assert_eq!(b.get_validator_rewards(CAROL), 6);
}

#[test]
fn a_failed_payment_leaves_the_swap_pending() {
    let mut b = bridge(2);
    let m = message(NATIVE, 100);
    let hash = hash_message(&m).unwrap();
    b.request_swap(ALICE, 1000, m.clone(), false).unwrap();
    assert_eq!(b.request_swap(BOB, 1000, m.clone(), false), Err(BridgeError::ReleaseFailed));
    assert_eq!(b.get_validators_who_approved(&hash), Some(vec![ALICE]));
    assert_eq!(b.get_validator_rewards(ALICE), 0);
    assert_eq!(
        b.request_swap(BOB, 1000, m.clone(), true),
        Ok(SwapOutcome::Released { asset: NATIVE, receiver: RECEIVER, amount: 90 })
    );
    assert_eq!(b.get_validator_rewards(ALICE), 3);
}

#[test]
fn a_token_swap_is_minted_and_rewards_nobody() {
    let mut b = bridge(2);
    let m = message(TOKEN, 1000);
    let hash = hash_message(&m).unwrap();
    b.request_swap(ALICE, 1000, m.clone(), false).unwrap();
    assert_eq!(b.payment_due(BOB, 1000, &m), None);
    assert_eq!(
        b.request_swap(BOB, 1000, m.clone(), false),
        Ok(SwapOutcome::Released { asset: TOKEN, receiver: RECEIVER, amount: 900 })
    );
    assert!(!b.is_swap_request_in(hash));
    assert_eq!(b.token_contract().balance_of(RECEIVER), 900);
    assert_eq!(b.token_contract().total_supply(), 900);
    assert_eq!(b.get_validator_rewards(ALICE), 0);
    assert_eq!(b.get_validator_rewards(BOB), 0);
}

#[test]
fn a_token_swap_fails_where_the_ledger_refuses_to_mint() {
    let token = ERC20Token::new(OWNER, String::from("Wrapped"), String::from("WRP"));
    let mut b = EdgewareBridge::new(OWNER, BRIDGE, 1000, 2, 3, 10, 1000, token, 1, 10).unwrap();
    b.add_validator(OWNER, ALICE).unwrap();
    b.add_validator(OWNER, BOB).unwrap();
    b.add_token(OWNER, 1000, TOKEN, 500).unwrap();
    let m = message(TOKEN, 1000);
    let hash = hash_message(&m).unwrap();
    b.request_swap(ALICE, 1000, m.clone(), false).unwrap();
    assert_eq!(b.request_swap(BOB, 1000, m.clone(), true), Err(BridgeError::MintFailed));
    assert_eq!(b.get_validators_who_approved(&hash), Some(vec![ALICE]));
    assert_eq!(b.token_contract().balance_of(RECEIVER), 0);
    assert_eq!(b.make_swap(TOKEN, 1000, RECEIVER, true), Err(BridgeError::MintFailed));
}

#[test]
fn requests_are_turned_down_in_order() {
    let mut b = bridge(2);
    let good = message(NATIVE, 100);
    let mut wrong_chain = message(OTHER, 100);
    wrong_chain.chain_id = 2;
    wrong_chain.timestamp = 0;
    let mut stale = message(OTHER, 100);
    stale.timestamp = 0;
    assert_eq!(
        b.request_swap(OTHER, 100_000, wrong_chain.clone(), true),
        Err(BridgeError::Unauthorized)
    );
    assert_eq!(
        b.request_swap(ALICE, 100_000, wrong_chain.clone(), true),
        Err(BridgeError::ChainMismatch)
    );
    assert_eq!(b.request_swap(ALICE, 100_000, stale.clone(), true), Err(BridgeError::Expired));
    assert_eq!(
        b.request_swap(ALICE, 1000, message(OTHER, 100), true),
        Err(BridgeError::UnknownAsset)
    );
    assert_eq!(b.check_request(OTHER, 1000, &good), Some(BridgeError::Unauthorized));
    assert_eq!(b.check_request(ALICE, 1000, &good), None);
    assert_eq!(b.get_request_swaps(), Vec::<Vec<u8>>::new());
}

#[test]
fn a_message_expires_by_its_own_timestamp() {
    let mut b = bridge(2);
    let m = message(NATIVE, 100);
    assert_eq!(
        b.request_swap(ALICE, 900 + 86400, m.clone(), false),
        Ok(SwapOutcome::Recorded { approvals: 1 })
    );
    assert_eq!(b.request_swap(BOB, 901 + 86400, m.clone(), true), Err(BridgeError::Expired));
    assert_eq!(b.payment_due(BOB, 901 + 86400, &m), None);
    assert_eq!(b.get_count_of_approvals(hash_message(&m).unwrap()), 1);
    assert_eq!(
        b.request_swap(BOB, 100, m.clone(), true),
        Ok(SwapOutcome::Released { asset: NATIVE, receiver: RECEIVER, amount: 90 })
    );
}

#[test]
fn a_lowered_threshold_lets_the_next_approval_release() {
    let mut b = bridge(3);
    let m = message(NATIVE, 100);
    b.request_swap(ALICE, 1000, m.clone(), false).unwrap();
    b.set_threshold(OWNER, 1).unwrap();
    assert_eq!(b.payment_due(BOB, 1000, &m), Some(Payment { receiver: RECEIVER, amount: 90 }));
    assert_eq!(
        b.request_swap(BOB, 1000, m.clone(), true),
        Ok(SwapOutcome::Released { asset: NATIVE, receiver: RECEIVER, amount: 90 })
    );
}

#[test]
fn with_a_threshold_of_one_the_first_approval_still_only_records() {
    let mut b = bridge(1);
    let m = message(NATIVE, 100);
    assert_eq!(b.payment_due(ALICE, 1000, &m), None);
    assert_eq!(
        b.request_swap(ALICE, 1000, m.clone(), true),
        Ok(SwapOutcome::Recorded { approvals: 1 })
    );
    assert_eq!(
        b.request_swap(BOB, 1000, m.clone(), true),
        Ok(SwapOutcome::Released { asset: NATIVE, receiver: RECEIVER, amount: 90 })
    );
}

#[test]
fn messages_that_differ_are_separate_swaps() {
    let mut b = bridge(2);
    let first = message(NATIVE, 100);
    let mut second = message(NATIVE, 100);
    second.transfer_nonce = 2;
    b.request_swap(ALICE, 1000, first.clone(), false).unwrap();
    assert_eq!(
        b.request_swap(ALICE, 1000, second.clone(), false),
        Ok(SwapOutcome::Recorded { approvals: 1 })
    );
    let mut hashes = b.get_request_swaps();
    hashes.sort();
    let mut expected = vec![hash_message(&first).unwrap(), hash_message(&second).unwrap()];
    expected.sort();
    assert_eq!(hashes, expected);
}

#[test]
fn the_owner_purges_every_pending_swap() {
    let mut b = bridge(3);
    let first = message(NATIVE, 100);
    let second = message(TOKEN, 100);
    b.request_swap(ALICE, 1000, first.clone(), false).unwrap();
    b.request_swap(BOB, 1000, first.clone(), false).unwrap();
    b.request_swap(ALICE, 1000, second.clone(), false).unwrap();
    assert_eq!(b.get_request_swaps().len(), 2);
    assert_eq!(b.clean_request_swaps_list(OWNER), Ok(()));
    assert_eq!(b.get_request_swaps(), Vec::<Vec<u8>>::new());
    assert_eq!(b.get_count_of_approvals(hash_message(&first).unwrap()), 0);
    assert_eq!(
        b.request_swap(BOB, 1000, first.clone(), false),
        Ok(SwapOutcome::Recorded { approvals: 1 })
    );
}

#[test]
fn approvals_by_hash_follow_the_same_rules() {
    let mut b = bridge(2);
    let hash: Vec<u8> = vec![1, 2, 3];
    assert_eq!(b.approval_payment(ALICE, &hash, NATIVE, 100, RECEIVER), None);
    assert_eq!(
        b.approve_swap(ALICE, hash.clone(), NATIVE, 100, RECEIVER, false),
        Ok(SwapOutcome::Recorded { approvals: 1 })
    );
    assert_eq!(
        b.approval_payment(BOB, &hash, NATIVE, 100, RECEIVER),
        Some(Payment { receiver: RECEIVER, amount: 90 })
    );
    assert_eq!(b.approval_payment(ALICE, &hash, NATIVE, 100, RECEIVER), None);
    assert_eq!(b.approval_payment(BOB, &hash, TOKEN, 100, RECEIVER), None);
    assert_eq!(
        b.approve_swap(ALICE, hash.clone(), NATIVE, 100, RECEIVER, true),
        Err(BridgeError::DuplicateApproval)
    );
    assert_eq!(
        b.approve_swap(BOB, hash.clone(), NATIVE, 100, RECEIVER, true),
        Ok(SwapOutcome::Released { asset: NATIVE, receiver: RECEIVER, amount: 90 })
    );
    assert!(!b.is_swap_request_in(hash));
}

#[test]
fn release_pays_the_deposit_less_the_fee() {
    let mut b = bridge(2);
    assert_eq!(b.make_swap(NATIVE, 1234, RECEIVER, true), Ok(1111));
    assert_eq!(b.get_validator_rewards(ALICE), 41);
    assert_eq!(b.make_swap(NATIVE, 1234, RECEIVER, false), Err(BridgeError::ReleaseFailed));
    assert_eq!(b.get_validator_rewards(ALICE), 41);
    assert_eq!(b.make_swap(TOKEN, 1234, RECEIVER, false), Ok(1111));
    assert_eq!(b.token_contract().balance_of(RECEIVER), 1111);
    assert_eq!(b.get_validator_rewards(ALICE), 41);
    b.set_fee(OWNER, 0).unwrap();
    assert_eq!(b.make_swap(NATIVE, 1234, RECEIVER, true), Ok(1234));
    b.set_fee(OWNER, 100).unwrap();
    assert_eq!(b.make_swap(NATIVE, 1234, RECEIVER, true), Ok(0));
}

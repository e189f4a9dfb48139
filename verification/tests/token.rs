use edgeware_bridge::account::AccountId;
use edgeware_bridge::erc20token::{Approval, Burn, ERC20Token, Mint, TokenError, Transfer};

const OWNER: AccountId = [1u8; 32];
const BRIDGE: AccountId = [2u8; 32];
const ALICE: AccountId = [3u8; 32];
const BOB: AccountId = [4u8; 32];
const CAROL: AccountId = [5u8; 32];

fn ledger() -> ERC20Token {
    ERC20Token::new(OWNER, String::from("Wrapped"), String::from("WRP"))
}

#[test]
fn new_ledger_is_empty() {
    let token = ledger();
    assert_eq!(token.total_supply(), 0);
    assert_eq!(token.balance_of(OWNER), 0);
    assert_eq!(token.balance_of(ALICE), 0);
    assert_eq!(token.allowance(OWNER, ALICE), 0);
    assert_eq!(token.ensure_owner_or_bridge(OWNER), Ok(()));
    assert_eq!(token.ensure_owner(OWNER), Ok(()));
    assert_eq!(token.ensure_owner(ALICE), Err(TokenError::Unauthorized));
    assert_eq!(token.ensure_owner_or_bridge(BRIDGE), Err(TokenError::Unauthorized));
}

#[test]
fn owner_mints() {
    let mut token = ledger();
    assert_eq!(token.mint(OWNER, 500, ALICE), Ok(Mint { receiver: ALICE, amount: 500 }));
    assert_eq!(token.mint(OWNER, 70, ALICE), Ok(Mint { receiver: ALICE, amount: 70 }));
    assert_eq!(token.mint(OWNER, 1, BOB), Ok(Mint { receiver: BOB, amount: 1 }));
    assert_eq!(token.balance_of(ALICE), 570);
    assert_eq!(token.balance_of(BOB), 1);
    assert_eq!(token.total_supply(), 571);
}

#[test]
fn stranger_cannot_mint_or_burn() {
    let mut token = ledger();
    assert_eq!(token.mint(ALICE, 500, ALICE), Err(TokenError::Unauthorized));
    assert_eq!(token.mint(OWNER, 500, ALICE), Ok(Mint { receiver: ALICE, amount: 500 }));
    assert_eq!(token.burn(ALICE, 100, ALICE), Err(TokenError::Unauthorized));
    assert_eq!(token.check_burn(BRIDGE, 100, ALICE), Some(TokenError::Unauthorized));
    assert_eq!(token.balance_of(ALICE), 500);
    assert_eq!(token.total_supply(), 500);
}

#[test]
fn bridge_mints_and_burns_once_named() {
    let mut token = ledger();
    assert_eq!(token.mint(BRIDGE, 5, ALICE), Err(TokenError::Unauthorized));
    assert_eq!(token.add_bridge_address(ALICE, BRIDGE), Err(TokenError::Unauthorized));
    assert_eq!(token.add_bridge_address(OWNER, BRIDGE), Ok(()));
    assert_eq!(token.ensure_owner_or_bridge(BRIDGE), Ok(()));
    assert_eq!(token.ensure_owner(BRIDGE), Err(TokenError::Unauthorized));
    assert_eq!(token.mint(BRIDGE, 5, ALICE), Ok(Mint { receiver: ALICE, amount: 5 }));
    assert_eq!(token.check_burn(BRIDGE, 2, ALICE), None);
    assert_eq!(token.burn(BRIDGE, 2, ALICE), Ok(Burn { holder: ALICE, amount: 2 }));
    assert_eq!(token.balance_of(ALICE), 3);
    assert_eq!(token.total_supply(), 3);
    assert_eq!(token.mint(OWNER, 1, ALICE), Ok(Mint { receiver: ALICE, amount: 1 }));
}

#[test]
fn burn_needs_the_balance() {
    let mut token = ledger();
    token.mint(OWNER, 10, ALICE).unwrap();
    assert_eq!(token.burn(OWNER, 11, ALICE), Err(TokenError::InsufficientBalance));
    assert_eq!(token.burn(OWNER, 1, BOB), Err(TokenError::InsufficientBalance));
    assert_eq!(token.balance_of(ALICE), 10);
    assert_eq!(token.total_supply(), 10);
    assert_eq!(token.burn(OWNER, 10, ALICE), Ok(Burn { holder: ALICE, amount: 10 }));
    assert_eq!(token.balance_of(ALICE), 0);
    assert_eq!(token.total_supply(), 0);
}

#[test]
fn mint_cannot_overflow() {
    let mut token = ledger();
    token.mint(OWNER, u128::MAX - 1, ALICE).unwrap();
    assert_eq!(token.mint(OWNER, 2, ALICE), Err(TokenError::Overflow));
    assert_eq!(token.mint(OWNER, 2, BOB), Err(TokenError::Overflow));
    assert_eq!(token.balance_of(ALICE), u128::MAX - 1);
    assert_eq!(token.balance_of(BOB), 0);
    assert_eq!(token.total_supply(), u128::MAX - 1);
    assert_eq!(token.mint(OWNER, 1, BOB), Ok(Mint { receiver: BOB, amount: 1 }));
    assert_eq!(token.total_supply(), u128::MAX);
}

#[test]
fn transfer_moves_tokens() {
    let mut token = ledger();
    token.mint(OWNER, 100, ALICE).unwrap();
    assert_eq!(
        token.transfer(ALICE, BOB, 30),
        Ok(Transfer { from: Some(ALICE), to: Some(BOB), value: 30 })
    );
    assert_eq!(token.balance_of(ALICE), 70);
    assert_eq!(token.balance_of(BOB), 30);
    assert_eq!(token.total_supply(), 100);
}

#[test]
fn transfer_needs_the_balance() {
    let mut token = ledger();
    token.mint(OWNER, 100, ALICE).unwrap();
    assert_eq!(token.transfer(ALICE, BOB, 101), Err(TokenError::InsufficientBalance));
    assert_eq!(token.transfer(CAROL, BOB, 1), Err(TokenError::InsufficientBalance));
    assert_eq!(token.balance_of(ALICE), 100);
    assert_eq!(token.balance_of(BOB), 0);
}

#[test]
fn transfer_to_oneself_changes_nothing() {
    let mut token = ledger();
    token.mint(OWNER, 100, ALICE).unwrap();
    assert_eq!(
        token.transfer(ALICE, ALICE, 60),
        Ok(Transfer { from: Some(ALICE), to: Some(ALICE), value: 60 })
    );
    assert_eq!(token.balance_of(ALICE), 100);
    assert_eq!(token.transfer(ALICE, ALICE, 101), Err(TokenError::InsufficientBalance));
}

#[test]
fn transfer_of_nothing_succeeds() {
    let mut token = ledger();
    assert_eq!(
        token.transfer(ALICE, BOB, 0),
        Ok(Transfer { from: Some(ALICE), to: Some(BOB), value: 0 })
    );
    assert_eq!(token.balance_of(ALICE), 0);
    assert_eq!(token.balance_of(BOB), 0);
}

#[test]
fn approve_sets_and_replaces_the_allowance() {
    let mut token = ledger();
    assert_eq!(
        token.approve(ALICE, BOB, 40),
        Ok(Approval { owner: ALICE, spender: BOB, value: 40 })
    );
    assert_eq!(token.allowance(ALICE, BOB), 40);
    assert_eq!(token.allowance(BOB, ALICE), 0);
    assert_eq!(
        token.approve(ALICE, BOB, 15),
        Ok(Approval { owner: ALICE, spender: BOB, value: 15 })
    );
    assert_eq!(token.allowance(ALICE, BOB), 15);
}

#[test]
fn transfer_from_spends_the_allowance() {
    let mut token = ledger();
    token.mint(OWNER, 100, ALICE).unwrap();
    token.approve(ALICE, BOB, 40).unwrap();
    assert_eq!(
        token.transfer_from(BOB, ALICE, CAROL, 25),
        Ok(Transfer { from: Some(ALICE), to: Some(CAROL), value: 25 })
    );
    assert_eq!(token.balance_of(ALICE), 75);
    assert_eq!(token.balance_of(CAROL), 25);
    assert_eq!(token.balance_of(BOB), 0);
    assert_eq!(token.allowance(ALICE, BOB), 15);
}

#[test]
fn transfer_from_needs_the_allowance() {
    let mut token = ledger();
    token.mint(OWNER, 100, ALICE).unwrap();
    token.approve(ALICE, BOB, 40).unwrap();
    assert_eq!(
        token.transfer_from(BOB, ALICE, CAROL, 41),
        Err(TokenError::InsufficientAllowance)
    );
    assert_eq!(
        token.transfer_from(CAROL, ALICE, CAROL, 1),
        Err(TokenError::InsufficientAllowance)
    );
    assert_eq!(token.balance_of(ALICE), 100);
    assert_eq!(token.allowance(ALICE, BOB), 40);
}

#[test]
fn transfer_from_needs_the_balance() {
    let mut token = ledger();
    token.mint(OWNER, 10, ALICE).unwrap();
    token.approve(ALICE, BOB, 40).unwrap();
    assert_eq!(token.transfer_from(BOB, ALICE, CAROL, 11), Err(TokenError::InsufficientBalance));
    assert_eq!(token.balance_of(ALICE), 10);
    assert_eq!(token.balance_of(CAROL), 0);
    assert_eq!(token.allowance(ALICE, BOB), 40);
}

#[test]
fn transfer_can_fill_the_receiver_to_the_brim() {
    let mut token = ledger();
    token.mint(OWNER, u128::MAX - 5, BOB).unwrap();
    token.mint(OWNER, 5, ALICE).unwrap();
    assert_eq!(
        token.transfer(ALICE, BOB, 5),
        Ok(Transfer { from: Some(ALICE), to: Some(BOB), value: 5 })
    );
    assert_eq!(token.balance_of(BOB), u128::MAX);
    assert_eq!(token.balance_of(ALICE), 0);
    assert_eq!(token.total_supply(), u128::MAX);
}

#[test]
fn burn_of_nothing_from_an_unseen_account_succeeds() {
    let mut token = ledger();
    assert_eq!(token.burn(OWNER, 0, ALICE), Ok(Burn { holder: ALICE, amount: 0 }));
    assert_eq!(token.balance_of(ALICE), 0);
    assert_eq!(token.total_supply(), 0);
}

#[test]
fn only_the_owner_hands_the_ledger_over() {
    let mut token = ledger();
    assert_eq!(token.transfer_ownership(ALICE, ALICE), Err(TokenError::Unauthorized));
    assert_eq!(token.transfer_ownership(OWNER, ALICE), Ok(()));
    assert_eq!(token.ensure_owner_or_bridge(ALICE), Ok(()));
    assert_eq!(token.ensure_owner_or_bridge(OWNER), Err(TokenError::Unauthorized));
    assert_eq!(token.mint(OWNER, 1, BOB), Err(TokenError::Unauthorized));
    assert_eq!(token.mint(ALICE, 1, BOB), Ok(Mint { receiver: BOB, amount: 1 }));
}

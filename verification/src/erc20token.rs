//! The fungible token ledger that the bridge mints to and burns from.
//!
//! The ledger keeps a balance per account and an allowance per owner and
//! spender. Its owner, and the bridge once the owner has named it, may mint
//! and burn. Every operation either takes full effect and returns the event
//! that records it, or fails with an error and changes nothing.

use vstd::prelude::*;
use crate::account::{AccountId, same_account};
use crate::tables::{AllowanceTable, AmountTable, table_capacity};

verus! {

/// Why an operation on the ledger failed.
#[derive(Clone, Copy, Debug, PartialEq, Eq)]
pub enum TokenError {
    /// The caller may not perform the operation.
    Unauthorized,
    /// The account holds less than the operation needs.
    InsufficientBalance,
    /// The spender is allowed less than the operation needs.
    InsufficientAllowance,
    /// A balance or the total supply would leave the range of `u128`.
    Overflow,
    /// A storage table has no room for another entry.
    CapacityExceeded,
}

/// Tokens moved from one account to another.
#[derive(Clone, Copy, Debug, PartialEq, Eq)]
pub struct Transfer {
    pub from: Option<AccountId>,
    pub to: Option<AccountId>,
    pub value: u128,
}

/// An allowance set by an owner for a spender.
#[derive(Clone, Copy, Debug, PartialEq, Eq)]
pub struct Approval {
    pub owner: AccountId,
    pub spender: AccountId,
    pub value: u128,
}

/// Tokens created for a receiver.
#[derive(Clone, Copy, Debug, PartialEq, Eq)]
pub struct Mint {
    pub receiver: AccountId,
    pub amount: u128,
}

/// Tokens destroyed from a holder's balance.
#[derive(Clone, Copy, Debug, PartialEq, Eq)]
pub struct Burn {
    pub holder: AccountId,
    pub amount: u128,
}

/// The ledger as a mathematical value.
pub struct TokenState {
    pub total_supply: u128,
    pub balances: Map<AccountId, u128>,
    pub allowances: Map<(AccountId, AccountId), u128>,
    pub name: Seq<char>,
    pub symbol: Seq<char>,
    pub decimals: u8,
    pub owner: AccountId,
    pub bridge: Option<AccountId>,
}

impl TokenState {
    /// What holds of every ledger: its tables are finite.
    pub open spec fn inv(self) -> bool {
        &&& self.balances.dom().finite()
        &&& self.allowances.dom().finite()
    }

    /// The balance of an account, zero where it has no entry.
    pub open spec fn balance_of(self, account: AccountId) -> u128 {
        if self.balances.contains_key(account) {
            self.balances[account]
        } else {
            0
        }
    }

    /// What `spender` may still withdraw from `owner`, zero where nothing was
    /// approved.
    pub open spec fn allowance(self, owner: AccountId, spender: AccountId) -> u128 {
        if self.allowances.contains_key((owner, spender)) {
            self.allowances[(owner, spender)]
        } else {
            0
        }
    }

    /// Whether `caller` may mint and burn: the owner and the registered
    /// bridge may.
    pub open spec fn may_issue(self, caller: AccountId) -> bool {
        caller == self.owner || self.bridge == Some(caller)
    }

    /// Whether the balance table has room for entries of both accounts.
    pub open spec fn room_for_balances(self, first: AccountId, second: AccountId) -> bool {
        let fresh_first: nat = if self.balances.contains_key(first) {
            0
        } else {
            1
        };
        let fresh_second: nat = if self.balances.contains_key(second) || second == first {
            0
        } else {
            1
        };
        fresh_first + fresh_second == 0 || self.balances.dom().len() + fresh_first + fresh_second
            <= table_capacity()
    }

    /// Whether the allowance table has room for an entry of the pair.
    pub open spec fn room_for_allowance(self, owner: AccountId, spender: AccountId) -> bool {
        self.allowances.contains_key((owner, spender)) || self.allowances.dom().len()
            < table_capacity()
    }

    /// The balances after `value` has moved from `from` to `to`.
    pub open spec fn moved(self, from: AccountId, to: AccountId, value: u128) -> Map<
        AccountId,
        u128,
    > {
        if from == to {
            self.balances.insert(from, self.balance_of(from))
        } else {
            self.balances.insert(from, (self.balance_of(from) - value) as u128).insert(
                to,
                (self.balance_of(to) + value) as u128,
            )
        }
    }

    /// Why a move of `value` from `from` to `to` fails, if it does.
    pub open spec fn move_error(self, from: AccountId, to: AccountId, value: u128) -> Option<
        TokenError,
    > {
        if self.balance_of(from) < value {
            Some(TokenError::InsufficientBalance)
        } else if from != to && self.balance_of(to) + value > u128::MAX {
            Some(TokenError::Overflow)
        } else if !self.room_for_balances(from, to) {
            Some(TokenError::CapacityExceeded)
        } else {
            None
        }
    }

    /// A transfer of `value` from `caller` to `to`.
    pub open spec fn transfer(self, caller: AccountId, to: AccountId, value: u128) -> Result<
        TokenState,
        TokenError,
    > {
        match self.move_error(caller, to, value) {
            Some(error) => Err(error),
            None => Ok(TokenState { balances: self.moved(caller, to, value), ..self }),
        }
    }

    /// `caller` allows `spender` to withdraw up to `value`.
    pub open spec fn approve(self, caller: AccountId, spender: AccountId, value: u128) -> Result<
        TokenState,
        TokenError,
    > {
        if !self.room_for_allowance(caller, spender) {
            Err(TokenError::CapacityExceeded)
        } else {
            Ok(TokenState { allowances: self.allowances.insert((caller, spender), value), ..self })
        }
    }

    /// `caller` moves `value` from `from` to `to` on `from`'s allowance.
    pub open spec fn transfer_from(
        self,
        caller: AccountId,
        from: AccountId,
        to: AccountId,
        value: u128,
    ) -> Result<TokenState, TokenError> {
        if self.allowance(from, caller) < value {
            Err(TokenError::InsufficientAllowance)
        } else if self.move_error(from, to, value) is Some {
            Err(self.move_error(from, to, value)->0)
        } else if !self.room_for_allowance(from, caller) {
            Err(TokenError::CapacityExceeded)
        } else {
            Ok(
                TokenState {
                    balances: self.moved(from, to, value),
                    allowances: self.allowances.insert(
                        (from, caller),
                        (self.allowance(from, caller) - value) as u128,
                    ),
                    ..self
                },
            )
        }
    }

    /// `caller` creates `amount` tokens for `receiver`.
    pub open spec fn mint(self, caller: AccountId, amount: u128, receiver: AccountId) -> Result<
        TokenState,
        TokenError,
    > {
        if !self.may_issue(caller) {
            Err(TokenError::Unauthorized)
        } else if self.balance_of(receiver) + amount > u128::MAX || self.total_supply + amount
            > u128::MAX {
            Err(TokenError::Overflow)
        } else if !self.room_for_balances(receiver, receiver) {
            Err(TokenError::CapacityExceeded)
        } else {
            Ok(
                TokenState {
                    balances: self.balances.insert(
                        receiver,
                        (self.balance_of(receiver) + amount) as u128,
                    ),
                    total_supply: (self.total_supply + amount) as u128,
                    ..self
                },
            )
        }
    }

    /// `caller` destroys `amount` tokens of `holder`.
    pub open spec fn burn(self, caller: AccountId, amount: u128, holder: AccountId) -> Result<
        TokenState,
        TokenError,
    > {
        if !self.may_issue(caller) {
            Err(TokenError::Unauthorized)
        } else if self.balance_of(holder) < amount {
            Err(TokenError::InsufficientBalance)
        } else if self.total_supply < amount {
            Err(TokenError::Overflow)
        } else if !self.room_for_balances(holder, holder) {
            Err(TokenError::CapacityExceeded)
        } else {
            Ok(
                TokenState {
                    balances: self.balances.insert(
                        holder,
                        (self.balance_of(holder) - amount) as u128,
                    ),
                    total_supply: (self.total_supply - amount) as u128,
                    ..self
                },
            )
        }
    }
}

/// The token ledger.
pub struct ERC20Token {
    total_supply: u128,
    balances: AmountTable,
    allowances: AllowanceTable,
    name: String,
    symbol: String,
    decimals: u8,
    owner: AccountId,
    bridge: Option<AccountId>,
}

impl ERC20Token {
    /// The ledger as a mathematical value.
    pub closed spec fn view(&self) -> TokenState {
        TokenState {
            total_supply: self.total_supply,
            balances: self.balances@,
            allowances: self.allowances@,
            name: self.name@,
            symbol: self.symbol@,
            decimals: self.decimals,
            owner: self.owner,
            bridge: self.bridge,
        }
    }

    /// Whether the ledger is well formed, as every ledger made and changed
    /// through this interface is.
    pub open spec fn wf(&self) -> bool {
        self@.inv()
    }

    /// A ledger without tokens, owned by `caller`, with eighteen decimals.
    pub fn new(caller: AccountId, name: String, symbol: String) -> (token: Self)
        ensures
            token.wf(),
            token@ == (TokenState {
                total_supply: 0,
                balances: Map::empty(),
                allowances: Map::empty(),
                name: name@,
                symbol: symbol@,
                decimals: 18,
                owner: caller,
                bridge: None,
            }),
    {
        ERC20Token {
            total_supply: 0,
            balances: AmountTable::new(),
            allowances: AllowanceTable::new(),
            name,
            symbol,
            decimals: 18,
            owner: caller,
            bridge: None,
        }
    }

    /// Hands the ledger to `new_owner`. Only the owner may.
    pub fn transfer_ownership(&mut self, caller: AccountId, new_owner: AccountId) -> (done: Result<
        (),
        TokenError,
    >)
        requires
            old(self).wf(),
        ensures
            final(self).wf(),
            done is Ok == (caller == old(self)@.owner),
            done is Ok ==> final(self)@ == (TokenState { owner: new_owner, ..old(self)@ }),
            done is Err ==> done == Err::<(), TokenError>(TokenError::Unauthorized) && final(self)@
                == old(self)@,
    {
        if self.ensure_owner(caller).is_err() {
            return Err(TokenError::Unauthorized);
        }
        self.owner = new_owner;
        Ok(())
    }

    /// Names the bridge, which may then mint and burn. Only the owner may.
    pub fn add_bridge_address(&mut self, caller: AccountId, bridge_address: AccountId) -> (done:
        Result<(), TokenError>)
        requires
            old(self).wf(),
        ensures
            final(self).wf(),
            done is Ok == (caller == old(self)@.owner),
            done is Ok ==> final(self)@ == (TokenState {
                bridge: Some(bridge_address),
                ..old(self)@
            }),
            done is Err ==> done == Err::<(), TokenError>(TokenError::Unauthorized) && final(self)@
                == old(self)@,
    {
        if self.ensure_owner(caller).is_err() {
            return Err(TokenError::Unauthorized);
        }
        self.bridge = Some(bridge_address);
        Ok(())
    }

    /// The number of tokens in existence.
    pub fn total_supply(&self) -> (supply: u128)
        ensures
            supply == self@.total_supply,
    {
        self.total_supply
    }

    /// The balance of `owner`, zero for an account the ledger has not seen.
    pub fn balance_of(&self, owner: AccountId) -> (balance: u128)
        ensures
            balance == self@.balance_of(owner),
    {
        match self.balances.get(&owner) {
            Some(balance) => balance,
            None => 0,
        }
    }

    /// What `spender` may still withdraw from `owner`, zero where nothing was
    /// approved.
    pub fn allowance(&self, owner: AccountId, spender: AccountId) -> (allowed: u128)
        ensures
            allowed == self@.allowance(owner, spender),
    {
        match self.allowances.get(&owner, &spender) {
            Some(allowed) => allowed,
            None => 0,
        }
    }

    /// Passes for the owner, and for nobody else.
    pub fn ensure_owner(&self, caller: AccountId) -> (allowed: Result<(), TokenError>)
        ensures
            allowed is Ok == (caller == self@.owner),
            allowed is Err ==> allowed->Err_0 == TokenError::Unauthorized,
    {
        if same_account(&caller, &self.owner) {
            Ok(())
        } else {
            Err(TokenError::Unauthorized)
        }
    }

    /// Passes for those who may mint and burn, the owner and the bridge, and
    /// for nobody else.
    pub fn ensure_owner_or_bridge(&self, caller: AccountId) -> (allowed: Result<(), TokenError>)
        ensures
            allowed is Ok == self@.may_issue(caller),
            allowed is Err ==> allowed->Err_0 == TokenError::Unauthorized,
    {
        if same_account(&caller, &self.owner) {
            return Ok(());
        }
        match self.bridge {
            Some(bridge) => {
                if same_account(&caller, &bridge) {
                    Ok(())
                } else {
                    Err(TokenError::Unauthorized)
                }
            },
            None => Err(TokenError::Unauthorized),
        }
    }

    /// Moves `value` from the caller's balance to `to`.
    pub fn transfer(&mut self, caller: AccountId, to: AccountId, value: u128) -> (done: Result<
        Transfer,
        TokenError,
    >)
        requires
            old(self).wf(),
        ensures
            final(self).wf(),
            old(self)@.transfer(caller, to, value) == (match done {
                Ok(_) => Ok(final(self)@),
                Err(error) => Err(error),
            }),
            done is Ok ==> done->Ok_0 == (Transfer { from: Some(caller), to: Some(to), value }),
            done is Err ==> final(self)@ == old(self)@,
    {
        self.transfer_from_to(caller, to, value)
    }

    /// Allows `spender` to withdraw up to `value` from the caller's balance,
    /// in place of whatever was allowed before.
    pub fn approve(&mut self, caller: AccountId, spender: AccountId, value: u128) -> (done: Result<
        Approval,
        TokenError,
    >)
        requires
            old(self).wf(),
        ensures
            final(self).wf(),
            old(self)@.approve(caller, spender, value) == (match done {
                Ok(_) => Ok(final(self)@),
                Err(error) => Err(error),
            }),
            done is Ok ==> done->Ok_0 == (Approval { owner: caller, spender, value }),
            done is Err ==> final(self)@ == old(self)@,
    {
        if self.allowances.get(&caller, &spender).is_none() && self.allowances.len() == u32::MAX {
            return Err(TokenError::CapacityExceeded);
        }
        self.allowances.insert(caller, spender, value);
        Ok(Approval { owner: caller, spender, value })
    }

    /// Moves `value` from `from` to `to` on the allowance that `from` gave
    /// the caller, which shrinks by `value`.
    pub fn transfer_from(
        &mut self,
        caller: AccountId,
        from: AccountId,
        to: AccountId,
        value: u128,
    ) -> (done: Result<Transfer, TokenError>)
        requires
            old(self).wf(),
        ensures
            final(self).wf(),
            old(self)@.transfer_from(caller, from, to, value) == (match done {
                Ok(_) => Ok(final(self)@),
                Err(error) => Err(error),
            }),
            done is Ok ==> done->Ok_0 == (Transfer { from: Some(from), to: Some(to), value }),
            done is Err ==> final(self)@ == old(self)@,
    {
        let allowance = self.allowance(from, caller);
        if allowance < value {
            return Err(TokenError::InsufficientAllowance);
        }
        match self.check_move(from, to, value) {
            Some(error) => {
                return Err(error);
            },
            None => {},
        }
        if self.allowances.get(&from, &caller).is_none() && self.allowances.len() == u32::MAX {
            return Err(TokenError::CapacityExceeded);
        }
        self.apply_move(from, to, value);
        self.allowances.insert(from, caller, allowance - value);
        Ok(Transfer { from: Some(from), to: Some(to), value })
    }

    /// Creates `amount` tokens for `receiver`. Only the owner and the bridge
    /// may.
    pub fn mint(&mut self, caller: AccountId, amount: u128, receiver: AccountId) -> (done: Result<
        Mint,
        TokenError,
    >)
        requires
            old(self).wf(),
        ensures
            final(self).wf(),
            old(self)@.mint(caller, amount, receiver) == (match done {
                Ok(_) => Ok(final(self)@),
                Err(error) => Err(error),
            }),
            done is Ok ==> done->Ok_0 == (Mint { receiver, amount }),
            done is Err ==> final(self)@ == old(self)@,
    {
        if self.ensure_owner_or_bridge(caller).is_err() {
            return Err(TokenError::Unauthorized);
        }
        let balance = self.balance_of(receiver);
        if balance > u128::MAX - amount || self.total_supply > u128::MAX - amount {
            return Err(TokenError::Overflow);
        }
        if self.balances.get(&receiver).is_none() && self.balances.len() == u32::MAX {
            return Err(TokenError::CapacityExceeded);
        }
        self.balances.insert(receiver, balance + amount);
        self.total_supply = self.total_supply + amount;
        Ok(Mint { receiver, amount })
    }

    /// Destroys `amount` tokens of `holder`. Only the owner and the bridge
    /// may.
    pub fn burn(&mut self, caller: AccountId, amount: u128, holder: AccountId) -> (done: Result<
        Burn,
        TokenError,
    >)
        requires
            old(self).wf(),
        ensures
            final(self).wf(),
            old(self)@.burn(caller, amount, holder) == (match done {
                Ok(_) => Ok(final(self)@),
                Err(error) => Err(error),
            }),
            done is Ok ==> done->Ok_0 == (Burn { holder, amount }),
            done is Err ==> final(self)@ == old(self)@,
    {
        match self.check_burn(caller, amount, holder) {
            Some(error) => {
                return Err(error);
            },
            None => {},
        }
        let balance = self.balance_of(holder);
        self.balances.insert(holder, balance - amount);
        self.total_supply = self.total_supply - amount;
        Ok(Burn { holder, amount })
    }

    /// Why burning `amount` of `holder` would fail, if it would.
    pub fn check_burn(&self, caller: AccountId, amount: u128, holder: AccountId) -> (error: Option<
        TokenError,
    >)
        requires
            self.wf(),
        ensures
            error == (match self@.burn(caller, amount, holder) {
                Ok(_) => None,
                Err(error) => Some(error),
            }),
    {
        if self.ensure_owner_or_bridge(caller).is_err() {
            return Some(TokenError::Unauthorized);
        }
        if self.balance_of(holder) < amount {
            return Some(TokenError::InsufficientBalance);
        }
        if self.total_supply < amount {
            return Some(TokenError::Overflow);
        }
        if self.balances.get(&holder).is_none() && self.balances.len() == u32::MAX {
            return Some(TokenError::CapacityExceeded);
        }
        None
    }

    /// Why moving `value` from `from` to `to` would fail, if it would.
    fn check_move(&self, from: AccountId, to: AccountId, value: u128) -> (error: Option<
        TokenError,
    >)
        requires
            self.wf(),
        ensures
            error == self@.move_error(from, to, value),
    {
        if self.balance_of(from) < value {
            return Some(TokenError::InsufficientBalance);
        }
        let same = same_account(&from, &to);
        if !same && self.balance_of(to) > u128::MAX - value {
            return Some(TokenError::Overflow);
        }
        let mut fresh: u64 = 0;
        if self.balances.get(&from).is_none() {
            fresh = fresh + 1;
        }
        if !same && self.balances.get(&to).is_none() {
            fresh = fresh + 1;
        }
        if self.balances.len() as u64 + fresh > 0xffff_ffff {
            return Some(TokenError::CapacityExceeded);
        }
        None
    }

    /// Moves `value` from `from` to `to`, once nothing stands against it.
    fn apply_move(&mut self, from: AccountId, to: AccountId, value: u128)
        requires
            old(self).wf(),
            old(self)@.move_error(from, to, value) is None,
        ensures
            final(self).wf(),
            final(self)@ == (TokenState {
                balances: old(self)@.moved(from, to, value),
                ..old(self)@
            }),
    {
        let from_balance = self.balance_of(from);
        self.balances.insert(from, from_balance - value);
        let to_balance = self.balance_of(to);
        self.balances.insert(to, to_balance + value);
        assert(self.balances@ =~= old(self)@.moved(from, to, value));
    }

    /// Moves `value` from `from` to `to`.
    fn transfer_from_to(&mut self, from: AccountId, to: AccountId, value: u128) -> (done: Result<
        Transfer,
        TokenError,
    >)
        requires
            old(self).wf(),
        ensures
            final(self).wf(),
            old(self)@.transfer(from, to, value) == (match done {
                Ok(_) => Ok(final(self)@),
                Err(error) => Err(error),
            }),
            done is Ok ==> done->Ok_0 == (Transfer { from: Some(from), to: Some(to), value }),
            done is Err ==> final(self)@ == old(self)@,
    {
        match self.check_move(from, to, value) {
            Some(error) => Err(error),
            None => {
                self.apply_move(from, to, value);
                Ok(Transfer { from: Some(from), to: Some(to), value })
            },
        }
    }
}

} // verus!

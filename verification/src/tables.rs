//! The storage tables of the bridge and of the token ledger.
//!
//! Each table keeps its entries in an ink! storage hash map
//! (`ink_storage::collections::HashMap`). The verifier does not look inside
//! that map: what a table holds is given a name, and every function in this
//! file states, without proof, what the map's own method does to it.
//!
//! The maps are only ever made by `HashMap::new`, so they live in memory and
//! look their keys up by the keys' order, which for byte arrays, byte vectors
//! and pairs of them is equality of the bytes. A map counts its entries in a
//! `u32`, so an insertion under a fresh key asks for room.

use vstd::prelude::*;
use ink_storage::collections::HashMap as StorageHashMap;
use crate::account::AccountId;

verus! {

/// How many entries a table can hold.
pub open spec fn table_capacity() -> nat {
    u32::MAX as nat
}

/// Membership flags by account.
#[verifier::external_body]
pub struct FlagTable {
    inner: StorageHashMap<AccountId, bool>,
}

/// The entries of a flag table.
pub uninterp spec fn flags(table: FlagTable) -> Map<AccountId, bool>;

impl FlagTable {
    /// The accounts that have an entry.
    pub open spec fn members(&self) -> Set<AccountId> {
        flags(*self).dom()
    }

    /// `HashMap::new`: makes a table without entries.
    #[verifier::external_body]
    pub(crate) fn new() -> (made: FlagTable)
        ensures
            flags(made) == (Map::<AccountId, bool>::empty()),
    {
        FlagTable { inner: StorageHashMap::new() }
    }

    /// `HashMap::len`: the number of entries.
    #[verifier::external_body]
    pub(crate) fn len(&self) -> (count: u32)
        requires
            flags(*self).dom().finite(),
        ensures
            count == flags(*self).dom().len(),
    {
        self.inner.len()
    }

    /// `HashMap::contains_key`: whether `key` has an entry.
    #[verifier::external_body]
    pub(crate) fn contains_key(&self, key: &AccountId) -> (found: bool)
        ensures
            found == flags(*self).contains_key(*key),
    {
        self.inner.contains_key(key)
    }

    /// `HashMap::insert`: sets the entry of `key` to `value`, whether or not
    /// there was one, and leaves every other entry alone.
    #[verifier::external_body]
    pub(crate) fn insert(&mut self, key: AccountId, value: bool)
        requires
            flags(*old(self)).dom().finite(),
            flags(*old(self)).contains_key(key) || flags(*old(self)).dom().len() < u32::MAX,
        ensures
            flags(*final(self)) == flags(*old(self)).insert(key, value),
    {
        self.inner.insert(key, value);
    }

    /// `HashMap::take`: removes the entry of `key` and returns its value, or
    /// changes nothing and returns `None` where there is none.
    #[verifier::external_body]
    pub(crate) fn take(&mut self, key: &AccountId) -> (taken: Option<bool>)
        ensures
            flags(*final(self)) == flags(*old(self)).remove(*key),
            taken == (if flags(*old(self)).contains_key(*key) {
                Some(flags(*old(self))[*key])
            } else {
                None
            }),
    {
        self.inner.take(key)
    }

    /// `HashMap::keys`: every key once, in an order that the entries alone do
    /// not determine.
    #[verifier::external_body]
    pub(crate) fn keys(&self) -> (keys: Vec<AccountId>)
        ensures
            keys@.no_duplicates(),
            keys@.to_set() == flags(*self).dom(),
    {
        self.inner.keys().cloned().collect()
    }
}

/// Amounts by account.
#[verifier::external_body]
pub struct AmountTable {
    inner: StorageHashMap<AccountId, u128>,
}

/// The entries of an amount table.
pub uninterp spec fn amounts(table: AmountTable) -> Map<AccountId, u128>;

impl AmountTable {
    /// The entries.
    pub open spec fn view(&self) -> Map<AccountId, u128> {
        amounts(*self)
    }

    /// `HashMap::new`: makes a table without entries.
    #[verifier::external_body]
    pub(crate) fn new() -> (made: AmountTable)
        ensures
            amounts(made) == (Map::<AccountId, u128>::empty()),
    {
        AmountTable { inner: StorageHashMap::new() }
    }

    /// `HashMap::len`: the number of entries.
    #[verifier::external_body]
    pub(crate) fn len(&self) -> (count: u32)
        requires
            amounts(*self).dom().finite(),
        ensures
            count == amounts(*self).dom().len(),
    {
        self.inner.len()
    }

    /// `HashMap::get`: the amount under `key`, if it has an entry.
    #[verifier::external_body]
    pub(crate) fn get(&self, key: &AccountId) -> (found: Option<u128>)
        ensures
            found == (if amounts(*self).contains_key(*key) {
                Some(amounts(*self)[*key])
            } else {
                None
            }),
    {
        self.inner.get(key).copied()
    }

    /// `HashMap::insert`: sets the entry of `key` to `value`, whether or not
    /// there was one, and leaves every other entry alone.
    #[verifier::external_body]
    pub(crate) fn insert(&mut self, key: AccountId, value: u128)
        requires
            amounts(*old(self)).dom().finite(),
            amounts(*old(self)).contains_key(key) || amounts(*old(self)).dom().len() < u32::MAX,
        ensures
            amounts(*final(self)) == amounts(*old(self)).insert(key, value),
    {
        self.inner.insert(key, value);
    }

    /// `HashMap::take`: removes the entry of `key` and returns its amount, or
    /// changes nothing and returns `None` where there is none.
    #[verifier::external_body]
    pub(crate) fn take(&mut self, key: &AccountId) -> (taken: Option<u128>)
        ensures
            amounts(*final(self)) == amounts(*old(self)).remove(*key),
            taken == (if amounts(*old(self)).contains_key(*key) {
                Some(amounts(*old(self))[*key])
            } else {
                None
            }),
    {
        self.inner.take(key)
    }
}

/// Points in time, in seconds, by account.
#[verifier::external_body]
pub struct TimeTable {
    inner: StorageHashMap<AccountId, u64>,
}

/// The entries of a time table.
pub uninterp spec fn times(table: TimeTable) -> Map<AccountId, u64>;

impl TimeTable {
    /// The entries.
    pub open spec fn view(&self) -> Map<AccountId, u64> {
        times(*self)
    }

    /// `HashMap::new`: makes a table without entries.
    #[verifier::external_body]
    pub(crate) fn new() -> (made: TimeTable)
        ensures
            times(made) == (Map::<AccountId, u64>::empty()),
    {
        TimeTable { inner: StorageHashMap::new() }
    }

    /// `HashMap::get`: the time under `key`, if it has an entry.
    #[verifier::external_body]
    pub(crate) fn get(&self, key: &AccountId) -> (found: Option<u64>)
        ensures
            found == (if times(*self).contains_key(*key) {
                Some(times(*self)[*key])
            } else {
                None
            }),
    {
        self.inner.get(key).copied()
    }

    /// `HashMap::insert`: sets the entry of `key` to `value`, whether or not
    /// there was one, and leaves every other entry alone.
    #[verifier::external_body]
    pub(crate) fn insert(&mut self, key: AccountId, value: u64)
        requires
            times(*old(self)).dom().finite(),
            times(*old(self)).contains_key(key) || times(*old(self)).dom().len() < u32::MAX,
        ensures
            times(*final(self)) == times(*old(self)).insert(key, value),
    {
        self.inner.insert(key, value);
    }

    /// `HashMap::take`: removes the entry of `key` and returns its time, or
    /// changes nothing and returns `None` where there is none.
    #[verifier::external_body]
    pub(crate) fn take(&mut self, key: &AccountId) -> (taken: Option<u64>)
        ensures
            times(*final(self)) == times(*old(self)).remove(*key),
            taken == (if times(*old(self)).contains_key(*key) {
                Some(times(*old(self))[*key])
            } else {
                None
            }),
    {
        self.inner.take(key)
    }
}

/// The validators that have approved each pending swap, by the swap's hash.
#[verifier::external_body]
pub struct ApprovalTable {
    inner: StorageHashMap<Vec<u8>, Vec<AccountId>>,
}

/// The entries of an approval table.
pub uninterp spec fn approvals(table: ApprovalTable) -> Map<Seq<u8>, Seq<AccountId>>;

impl ApprovalTable {
    /// The entries.
    pub open spec fn view(&self) -> Map<Seq<u8>, Seq<AccountId>> {
        approvals(*self)
    }

    /// `HashMap::new`: makes a table without entries.
    #[verifier::external_body]
    pub(crate) fn new() -> (made: ApprovalTable)
        ensures
            approvals(made) == (Map::<Seq<u8>, Seq<AccountId>>::empty()),
    {
        ApprovalTable { inner: StorageHashMap::new() }
    }

    /// `HashMap::len`: the number of entries.
    #[verifier::external_body]
    pub(crate) fn len(&self) -> (count: u32)
        requires
            approvals(*self).dom().finite(),
        ensures
            count == approvals(*self).dom().len(),
    {
        self.inner.len()
    }

    /// `HashMap::contains_key`: whether `key` has an entry.
    #[verifier::external_body]
    pub(crate) fn contains_key(&self, key: &Vec<u8>) -> (found: bool)
        ensures
            found == approvals(*self).contains_key(key@),
    {
        self.inner.contains_key(key)
    }

    /// `HashMap::get`: a copy of the list under `key`, if it has an entry.
    #[verifier::external_body]
    pub(crate) fn get(&self, key: &Vec<u8>) -> (found: Option<Vec<AccountId>>)
        ensures
            found is Some == approvals(*self).contains_key(key@),
            found is Some ==> found->0@ == approvals(*self)[key@],
    {
        self.inner.get(key).cloned()
    }

    /// `HashMap::insert`: sets the entry of `key` to `value`, whether or not
    /// there was one, and leaves every other entry alone.
    #[verifier::external_body]
    pub(crate) fn insert(&mut self, key: Vec<u8>, value: Vec<AccountId>)
        requires
            approvals(*old(self)).dom().finite(),
            approvals(*old(self)).contains_key(key@) || approvals(*old(self)).dom().len()
                < u32::MAX,
        ensures
            approvals(*final(self)) == approvals(*old(self)).insert(key@, value@),
    {
        self.inner.insert(key, value);
    }

    /// `HashMap::take`: removes the entry of `key` and returns its list, or
    /// changes nothing and returns `None` where there is none.
    #[verifier::external_body]
    pub(crate) fn take(&mut self, key: &Vec<u8>) -> (taken: Option<Vec<AccountId>>)
        ensures
            approvals(*final(self)) == approvals(*old(self)).remove(key@),
            taken is Some == approvals(*old(self)).contains_key(key@),
            taken is Some ==> taken->0@ == approvals(*old(self))[key@],
    {
        self.inner.take(key)
    }

    /// `HashMap::keys`: every key once, in an order that the entries alone do
    /// not determine.
    #[verifier::external_body]
    pub(crate) fn keys(&self) -> (keys: Vec<Vec<u8>>)
        ensures
            keys.deep_view().no_duplicates(),
            keys.deep_view().to_set() == approvals(*self).dom(),
    {
        self.inner.keys().cloned().collect()
    }
}

/// Allowances by owner and spender.
#[verifier::external_body]
pub struct AllowanceTable {
    inner: StorageHashMap<(AccountId, AccountId), u128>,
}

/// The entries of an allowance table.
pub uninterp spec fn allowances(table: AllowanceTable) -> Map<(AccountId, AccountId), u128>;

impl AllowanceTable {
    /// The entries.
    pub open spec fn view(&self) -> Map<(AccountId, AccountId), u128> {
        allowances(*self)
    }

    /// `HashMap::new`: makes a table without entries.
    #[verifier::external_body]
    pub(crate) fn new() -> (made: AllowanceTable)
        ensures
            allowances(made) == (Map::<(AccountId, AccountId), u128>::empty()),
    {
        AllowanceTable { inner: StorageHashMap::new() }
    }

    /// `HashMap::len`: the number of entries.
    #[verifier::external_body]
    pub(crate) fn len(&self) -> (count: u32)
        requires
            allowances(*self).dom().finite(),
        ensures
            count == allowances(*self).dom().len(),
    {
        self.inner.len()
    }

    /// `HashMap::get`: the allowance under the pair, if it has an entry.
    #[verifier::external_body]
    pub(crate) fn get(&self, owner: &AccountId, spender: &AccountId) -> (found: Option<u128>)
        ensures
            found == (if allowances(*self).contains_key((*owner, *spender)) {
                Some(allowances(*self)[(*owner, *spender)])
            } else {
                None
            }),
    {
        self.inner.get(&(*owner, *spender)).copied()
    }

    /// `HashMap::insert`: sets the entry of the pair to `value`, whether or
    /// not there was one, and leaves every other entry alone.
    #[verifier::external_body]
    pub(crate) fn insert(&mut self, owner: AccountId, spender: AccountId, value: u128)
        requires
            allowances(*old(self)).dom().finite(),
            allowances(*old(self)).contains_key((owner, spender)) || allowances(
                *old(self),
            ).dom().len() < u32::MAX,
        ensures
            allowances(*final(self)) == allowances(*old(self)).insert((owner, spender), value),
    {
        self.inner.insert((owner, spender), value);
    }
}

} // verus!

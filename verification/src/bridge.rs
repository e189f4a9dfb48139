//! The bridge: its configuration, its registries of validators and tokens,
//! the daily limits, the pending swaps and the rewards.
//!
//! What the host chain knows is passed in: the caller of an operation,
//! the current time in seconds, and, where the operation asks the host to pay
//! native coin, whether that payment went through. What the host has to do
//! comes back: the event to emit, the amount to pay.

use vstd::prelude::*;
use crate::account::{AccountId, is_native, native_asset, same_account, zero_address};
use crate::codec::{SwapMessage, can_encode, hash_message, message_encoding, sha3_256};
use crate::erc20token::ERC20Token;
use crate::state::{
    BridgeError, BridgeState, ONE_DAY, Payment, SwapOutcome, amount_to_send, fee_share,
};
use crate::tables::{AmountTable, ApprovalTable, FlagTable, TimeTable};

verus! {

/// An outbound transfer, for the host to record.
#[derive(Clone, Debug, PartialEq, Eq)]
pub struct Transfer {
    /// Who receives on the other side, in that side's notation.
    pub receiver: String,
    /// Who sent.
    pub sender: AccountId,
    /// How much was sent, before the fee.
    pub amount: u128,
    /// The asset, with the all-zero identity for the native coin.
    pub asset: AccountId,
    /// The nonce of this transfer.
    pub transfer_nonce: u128,
    /// When the transfer was made, in seconds.
    pub timestamp: u64,
}

/// What a call made of the state: the state after it, or its error.
pub open spec fn settled<T>(done: Result<T, BridgeError>, after: BridgeState) -> Result<
    BridgeState,
    BridgeError,
> {
    match done {
        Ok(_) => Ok(after),
        Err(error) => Err(error),
    }
}

/// The bridge.
pub struct EdgewareBridge {
    swap_requests: ApprovalTable,
    tokens: FlagTable,
    validators: FlagTable,
    daily_limit: AmountTable,
    daily_spend: AmountTable,
    daily_limit_set_time: TimeTable,
    validator_rewards: AmountTable,
    fee: u128,
    signature_threshold: u16,
    max_validator_count: u16,
    tx_expiration_time: u64,
    owner: AccountId,
    account: AccountId,
    transfer_nonce: u128,
    token_contract: ERC20Token,
    chain_id: u8,
    min_amount_to_transfer: u128,
}

impl EdgewareBridge {
    /// The bridge as a mathematical value.
    pub closed spec fn view(&self) -> BridgeState {
        BridgeState {
            swap_requests: self.swap_requests@,
            tokens: self.tokens.members(),
            validators: self.validators.members(),
            daily_limit: self.daily_limit@,
            daily_spend: self.daily_spend@,
            daily_limit_set_time: self.daily_limit_set_time@,
            validator_rewards: self.validator_rewards@,
            fee: self.fee,
            signature_threshold: self.signature_threshold,
            max_validator_count: self.max_validator_count,
            tx_expiration_time: self.tx_expiration_time,
            owner: self.owner,
            account: self.account,
            transfer_nonce: self.transfer_nonce,
            token_contract: self.token_contract@,
            chain_id: self.chain_id,
            min_amount_to_transfer: self.min_amount_to_transfer,
        }
    }

    /// Whether the bridge is well formed, as every bridge made and changed
    /// through this interface is.
    pub open spec fn wf(&self) -> bool {
        self@.inv()
    }

    /// A bridge owned by `caller`, acting as `account` toward the token
    /// ledger, without validators, tokens or pending swaps. The native coin
    /// has the daily limit `coin_daily_limit`, and its window begins at `now`.
    /// Messages expire after a day. A fee above a hundred percent is refused.
    pub fn new(
        caller: AccountId,
        account: AccountId,
        now: u64,
        threshold: u16,
        max_permissible_validator_count: u16,
        transfer_fee: u128,
        coin_daily_limit: u128,
        token_contract: ERC20Token,
        chain_id: u8,
        min_amount_to_transfer: u128,
    ) -> (made: Result<Self, BridgeError>)
        requires
            token_contract.wf(),
        ensures
            made is Ok == (transfer_fee <= 100),
            made is Err ==> made->Err_0 == BridgeError::InvalidConfig,
            made is Ok ==> made->Ok_0.wf() && made->Ok_0@ == (BridgeState {
                swap_requests: Map::empty(),
                tokens: Set::empty(),
                validators: Set::empty(),
                daily_limit: Map::empty().insert(native_asset(), coin_daily_limit),
                daily_spend: Map::empty().insert(native_asset(), 0u128),
                daily_limit_set_time: Map::empty().insert(native_asset(), now),
                validator_rewards: Map::empty(),
                fee: transfer_fee,
                signature_threshold: threshold,
                max_validator_count: max_permissible_validator_count,
                tx_expiration_time: ONE_DAY,
                owner: caller,
                account: account,
                transfer_nonce: 0,
                token_contract: token_contract@,
                chain_id: chain_id,
                min_amount_to_transfer: min_amount_to_transfer,
            }),
    {
        if transfer_fee > 100 {
            return Err(BridgeError::InvalidConfig);
        }
        let zero = zero_address();
        let mut daily_limit = AmountTable::new();
        daily_limit.insert(zero, coin_daily_limit);
        let mut daily_limit_set_time = TimeTable::new();
        daily_limit_set_time.insert(zero, now);
        let mut daily_spend = AmountTable::new();
        daily_spend.insert(zero, 0);
        let bridge = EdgewareBridge {
            swap_requests: ApprovalTable::new(),
            tokens: FlagTable::new(),
            validators: FlagTable::new(),
            daily_limit,
            daily_spend,
            daily_limit_set_time,
            validator_rewards: AmountTable::new(),
            fee: transfer_fee,
            signature_threshold: threshold,
            max_validator_count: max_permissible_validator_count,
            tx_expiration_time: ONE_DAY,
            owner: caller,
            account,
            transfer_nonce: 0,
            token_contract,
            chain_id,
            min_amount_to_transfer,
        };
        assert(bridge@.tokens =~= Set::empty());
        assert(bridge@.validators =~= Set::empty());
        assert(bridge@.daily_spend.dom() =~= bridge@.daily_limit.dom());
        assert(bridge@.daily_limit_set_time.dom() =~= bridge@.daily_limit.dom());
        Ok(bridge)
    }

    /// Passes for the owner, and for nobody else.
    pub fn ensure_owner(&self, caller: AccountId) -> (allowed: Result<(), BridgeError>)
        ensures
            allowed is Ok == (caller == self@.owner),
            allowed is Err ==> allowed->Err_0 == BridgeError::Unauthorized,
    {
        if same_account(&caller, &self.owner) {
            Ok(())
        } else {
            Err(BridgeError::Unauthorized)
        }
    }

    /// Hands the bridge to `new_owner`. Only the owner may.
    pub fn transfer_ownership(&mut self, caller: AccountId, new_owner: AccountId) -> (done: Result<
        (),
        BridgeError,
    >)
        requires
            old(self).wf(),
        ensures
            final(self).wf(),
            old(self)@.transfer_ownership(caller, new_owner) == settled(done, final(self)@),
            done is Err ==> final(self)@ == old(self)@,
    {
        if self.ensure_owner(caller).is_err() {
            return Err(BridgeError::Unauthorized);
        }
        self.owner = new_owner;
        Ok(())
    }

    /// Sets the fee, in percent; one above a hundred is refused. Only the
    /// owner may.
    pub fn set_fee(&mut self, caller: AccountId, new_fee: u128) -> (done: Result<(), BridgeError>)
        requires
            old(self).wf(),
        ensures
            final(self).wf(),
            old(self)@.set_fee(caller, new_fee) == settled(done, final(self)@),
            done is Err ==> final(self)@ == old(self)@,
    {
        if self.ensure_owner(caller).is_err() {
            return Err(BridgeError::Unauthorized);
        }
        if new_fee > 100 {
            return Err(BridgeError::InvalidConfig);
        }
        self.fee = new_fee;
        Ok(())
    }

    /// Adds a validator, unless the set is full. Only the owner may.
    pub fn add_validator(&mut self, caller: AccountId, new_validator: AccountId) -> (done: Result<
        (),
        BridgeError,
    >)
        requires
            old(self).wf(),
        ensures
            final(self).wf(),
            old(self)@.add_validator(caller, new_validator) == settled(done, final(self)@),
            done is Err ==> final(self)@ == old(self)@,
    {
        if self.ensure_owner(caller).is_err() {
            return Err(BridgeError::Unauthorized);
        }
        let count = self.validators.len();
        if count >= self.max_validator_count as u32 {
            return Err(BridgeError::CapacityExceeded);
        }
        if self.validator_rewards.get(&new_validator).is_none() {
            if self.validator_rewards.len() == u32::MAX {
                return Err(BridgeError::CapacityExceeded);
            }
            self.validator_rewards.insert(new_validator, 0);
        }
        self.validators.insert(new_validator, true);
        assert(self@.validator_rewards =~= old(self)@.validator_rewards.insert(
            new_validator,
            old(self)@.reward_of(new_validator),
        ));
        Ok(())
    }

    /// Removes a validator, unless fewer than the signature threshold would
    /// remain. Only the owner may.
    pub fn remove_validator(&mut self, caller: AccountId, validator: AccountId) -> (done: Result<
        (),
        BridgeError,
    >)
        requires
            old(self).wf(),
        ensures
            final(self).wf(),
            old(self)@.remove_validator(caller, validator) == settled(done, final(self)@),
            done is Err ==> final(self)@ == old(self)@,
            done is Ok ==> final(self)@.validators.len() >= final(self)@.signature_threshold,
    {
        if self.ensure_owner(caller).is_err() {
            return Err(BridgeError::Unauthorized);
        }
        let count = self.validators.len();
        if count <= self.signature_threshold as u32 {
            return Err(BridgeError::QuorumUnsafe);
        }
        if !self.validators.contains_key(&validator) {
            return Err(BridgeError::NotFound);
        }
        self.validators.take(&validator);
        Ok(())
    }

    /// Sets the signature threshold, which is at least one and at most the
    /// greatest number of validators. Only the owner may.
    pub fn set_threshold(&mut self, caller: AccountId, new_signature_threshold: u16) -> (done:
        Result<(), BridgeError>)
        requires
            old(self).wf(),
        ensures
            final(self).wf(),
            old(self)@.set_threshold(caller, new_signature_threshold) == settled(
                done,
                final(self)@,
            ),
            done is Err ==> final(self)@ == old(self)@,
    {
        if self.ensure_owner(caller).is_err() {
            return Err(BridgeError::Unauthorized);
        }
        if new_signature_threshold == 0 || new_signature_threshold > self.max_validator_count {
            return Err(BridgeError::InvalidConfig);
        }
        self.signature_threshold = new_signature_threshold;
        Ok(())
    }

    /// Registers a token with its daily limit, which is not zero. Its window
    /// begins at `now` with nothing spent, also where the token was
    /// registered before. Only the owner may.
    pub fn add_token(
        &mut self,
        caller: AccountId,
        now: u64,
        new_token: AccountId,
        token_daily_limit: u128,
    ) -> (done: Result<(), BridgeError>)
        requires
            old(self).wf(),
        ensures
            final(self).wf(),
            old(self)@.add_token(caller, now, new_token, token_daily_limit) == settled(
                done,
                final(self)@,
            ),
            done is Err ==> final(self)@ == old(self)@,
    {
        if self.ensure_owner(caller).is_err() {
            return Err(BridgeError::Unauthorized);
        }
        if token_daily_limit == 0 {
            return Err(BridgeError::InvalidLimit);
        }
        if !self.tokens.contains_key(&new_token) && self.tokens.len() == u32::MAX {
            return Err(BridgeError::CapacityExceeded);
        }
        if self.daily_limit.get(&new_token).is_none() && self.daily_limit.len() == u32::MAX {
            return Err(BridgeError::CapacityExceeded);
        }
        self.tokens.insert(new_token, true);
        self.daily_limit.insert(new_token, token_daily_limit);
        self.daily_limit_set_time.insert(new_token, now);
        self.daily_spend.insert(new_token, 0);
        Ok(())
    }

    /// Removes a token from the registry, with its limit and its window. Only
    /// the owner may.
    pub fn remove_token(&mut self, caller: AccountId, token: AccountId) -> (done: Result<
        (),
        BridgeError,
    >)
        requires
            old(self).wf(),
        ensures
            final(self).wf(),
            old(self)@.remove_token(caller, token) == settled(done, final(self)@),
            done is Err ==> final(self)@ == old(self)@,
    {
        if self.ensure_owner(caller).is_err() {
            return Err(BridgeError::Unauthorized);
        }
        if !self.tokens.contains_key(&token) {
            return Err(BridgeError::NotFound);
        }
        self.tokens.take(&token);
        self.daily_limit.take(&token);
        self.daily_limit_set_time.take(&token);
        self.daily_spend.take(&token);
        Ok(())
    }

    /// Sets the daily limit of a registered token; zero is refused. Only the
    /// owner may.
    pub fn set_daily_limit(
        &mut self,
        caller: AccountId,
        new_limit: u128,
        asset_limited: AccountId,
    ) -> (done: Result<(), BridgeError>)
        requires
            old(self).wf(),
        ensures
            final(self).wf(),
            old(self)@.set_daily_limit(caller, new_limit, asset_limited) == settled(
                done,
                final(self)@,
            ),
            done is Err ==> final(self)@ == old(self)@,
    {
        if self.ensure_owner(caller).is_err() {
            return Err(BridgeError::Unauthorized);
        }
        if !self.tokens.contains_key(&asset_limited) {
            return Err(BridgeError::UnknownAsset);
        }
        if new_limit == 0 {
            return Err(BridgeError::InvalidConfig);
        }
        self.daily_limit.insert(asset_limited, new_limit);
        assert(self@.daily_limit.dom() =~= old(self)@.daily_limit.dom());
        Ok(())
    }

    /// Sets how old a swap message may be, in seconds; zero is refused. Only
    /// the owner may.
    pub fn set_tx_expiration_time(&mut self, caller: AccountId, new_tx_expiration_time: u64) -> (done:
        Result<(), BridgeError>)
        requires
            old(self).wf(),
        ensures
            final(self).wf(),
            old(self)@.set_tx_expiration_time(caller, new_tx_expiration_time) == settled(
                done,
                final(self)@,
            ),
            done is Err ==> final(self)@ == old(self)@,
    {
        if self.ensure_owner(caller).is_err() {
            return Err(BridgeError::Unauthorized);
        }
        if new_tx_expiration_time == 0 {
            return Err(BridgeError::InvalidConfig);
        }
        self.tx_expiration_time = new_tx_expiration_time;
        Ok(())
    }
}

impl EdgewareBridge {
    /// Whether `token` is registered.
    pub fn is_token_in(&self, token: AccountId) -> (found: bool)
        ensures
            found == self@.tokens.contains(token),
    {
        self.tokens.contains_key(&token)
    }

    /// Whether `validator` is a validator.
    pub fn is_validator_in(&self, validator: AccountId) -> (found: bool)
        ensures
            found == self@.validators.contains(validator),
    {
        self.validators.contains_key(&validator)
    }

    /// Whether the swap with this hash is pending.
    pub fn is_swap_request_in(&self, swap_hash: Vec<u8>) -> (found: bool)
        ensures
            found == self@.swap_requests.contains_key(swap_hash@),
    {
        self.swap_requests.contains_key(&swap_hash)
    }

    /// Whether `asset` has a daily limit and a window.
    pub fn has_daily_limit(&self, asset: AccountId) -> (found: bool)
        ensures
            found == self@.daily_limit.contains_key(asset),
    {
        self.daily_limit.get(&asset).is_some()
    }

    /// The daily limit of an asset that has one.
    pub fn get_daily_limit(&self, token: AccountId) -> (limit: u128)
        requires
            self.wf(),
            self@.daily_limit.contains_key(token),
        ensures
            limit == self@.daily_limit[token],
    {
        match self.daily_limit.get(&token) {
            Some(limit) => limit,
            None => 0,
        }
    }

    /// What an asset that has a daily limit has spent in its latest window.
    pub fn get_daily_spend(&self, token: AccountId) -> (spent: u128)
        requires
            self.wf(),
            self@.daily_limit.contains_key(token),
        ensures
            spent == self@.daily_spend[token],
    {
        match self.daily_spend.get(&token) {
            Some(spent) => spent,
            None => 0,
        }
    }

    /// When the latest window of an asset that has a daily limit began.
    pub fn get_daily_limit_set_time(&self, token: AccountId) -> (start: u64)
        requires
            self.wf(),
            self@.daily_limit.contains_key(token),
        ensures
            start == self@.daily_limit_set_time[token],
    {
        match self.daily_limit_set_time.get(&token) {
            Some(start) => start,
            None => 0,
        }
    }

    /// The fee, in percent.
    pub fn get_fee(&self) -> (fee: u128)
        ensures
            fee == self@.fee,
    {
        self.fee
    }

    /// How many validators must approve a swap.
    pub fn get_signature_threshold(&self) -> (threshold: u16)
        ensures
            threshold == self@.signature_threshold,
    {
        self.signature_threshold
    }

    /// How many validators there may be.
    pub fn get_max_validator_count(&self) -> (count: u16)
        ensures
            count == self@.max_validator_count,
    {
        self.max_validator_count
    }

    /// How old a swap message may be, in seconds.
    pub fn get_tx_expiration_time(&self) -> (seconds: u64)
        ensures
            seconds == self@.tx_expiration_time,
    {
        self.tx_expiration_time
    }

    /// The number of outbound transfers so far.
    pub fn get_transfer_nonce(&self) -> (nonce: u128)
        ensures
            nonce == self@.transfer_nonce,
    {
        self.transfer_nonce
    }

    /// The chain this bridge releases on.
    pub fn get_chain_id(&self) -> (chain: u8)
        ensures
            chain == self@.chain_id,
    {
        self.chain_id
    }

    /// The token ledger.
    pub fn token_contract(&self) -> (token: &ERC20Token)
        ensures
            token@ == self@.token_contract,
    {
        &self.token_contract
    }

    /// The token ledger, for the operations that its holders and its owner
    /// perform on it themselves.
    pub fn token_contract_mut(&mut self) -> (token: &mut ERC20Token)
        ensures
            token@ == old(self)@.token_contract,
            final(self)@ == (BridgeState { token_contract: final(token)@, ..old(self)@ }),
    {
        &mut self.token_contract
    }

    /// The registered tokens, each once, in no particular order.
    pub fn get_tokens(&self) -> (tokens: Vec<AccountId>)
        ensures
            tokens@.no_duplicates(),
            tokens@.to_set() == self@.tokens,
    {
        self.tokens.keys()
    }

    /// The validators, each once, in no particular order.
    pub fn get_validators(&self) -> (validators: Vec<AccountId>)
        ensures
            validators@.no_duplicates(),
            validators@.to_set() == self@.validators,
    {
        self.validators.keys()
    }

    /// The hashes of the pending swaps, each once, in no particular order.
    pub fn get_request_swaps(&self) -> (swaps: Vec<Vec<u8>>)
        ensures
            swaps.deep_view().no_duplicates(),
            swaps.deep_view().to_set() == self@.swap_requests.dom(),
    {
        self.swap_requests.keys()
    }

    /// The validators that have approved the swap with this hash, in the
    /// order in which they approved, if the swap is pending.
    pub fn get_validators_who_approved(&self, message_hash: &Vec<u8>) -> (approved: Option<
        Vec<AccountId>,
    >)
        ensures
            approved is Some == self@.swap_requests.contains_key(message_hash@),
            approved is Some ==> approved->0@ == self@.swap_requests[message_hash@],
    {
        self.swap_requests.get(message_hash)
    }

    /// How many validators have approved the swap with this hash: none where
    /// it is not pending.
    pub fn get_count_of_approvals(&self, message_hash: Vec<u8>) -> (count: u16)
        requires
            self.wf(),
        ensures
            count == self@.approvals_of(message_hash@),
    {
        match self.get_validators_who_approved(&message_hash) {
            Some(approved) => approved.len() as u16,
            None => 0,
        }
    }

    /// The rewards that `validator` can claim.
    pub fn get_validator_rewards(&self, validator: AccountId) -> (rewards: u128)
        ensures
            rewards == self@.reward_of(validator),
    {
        match self.validator_rewards.get(&validator) {
            Some(rewards) => rewards,
            None => 0,
        }
    }

    /// Whether `new_acc` occurs in `list_of_accs`.
    pub fn is_in(&self, list_of_accs: &Vec<AccountId>, new_acc: &AccountId) -> (found: bool)
        ensures
            found == list_of_accs@.contains(*new_acc),
    {
        let mut i: usize = 0;
        while i < list_of_accs.len()
            invariant
                i <= list_of_accs.len(),
                forall|j: int| 0 <= j < i ==> list_of_accs@[j] != *new_acc,
            decreases list_of_accs.len() - i,
        {
            if same_account(&list_of_accs[i], new_acc) {
                return true;
            }
            i = i + 1;
        }
        false
    }

    /// Whether `asset_address` can be transferred: the native coin and the
    /// registered tokens can.
    pub fn check_asset(&self, asset_address: &AccountId) -> (transferable: bool)
        ensures
            transferable == self@.is_transferable(*asset_address),
    {
        is_native(asset_address) || self.tokens.contains_key(asset_address)
    }

    /// Whether a message made at `tx_time` is still fresh at `now`.
    pub fn check_expiration_time(&self, now: u64, tx_time: u64) -> (fresh: bool)
        ensures
            fresh == !self@.expired(now, tx_time),
    {
        now <= tx_time || now - tx_time <= self.tx_expiration_time
    }

    /// Forgets every pending swap, whatever approvals it had. Only the owner
    /// may.
    pub fn clean_request_swaps_list(&mut self, caller: AccountId) -> (done: Result<
        (),
        BridgeError,
    >)
        requires
            old(self).wf(),
        ensures
            final(self).wf(),
            old(self)@.clean_request_swaps_list(caller) == settled(done, final(self)@),
            done is Err ==> final(self)@ == old(self)@,
    {
        if self.ensure_owner(caller).is_err() {
            return Err(BridgeError::Unauthorized);
        }
        self.swap_requests = ApprovalTable::new();
        Ok(())
    }
}

/// The fee on `amount` at `fee` percent, rounded down.
pub fn fee_of(amount: u128, fee: u128) -> (share: u128)
    requires
        fee <= 100,
    ensures
        share == fee_share(amount, fee),
        share <= amount,
{
    let hundreds = amount / 100;
    let rest = amount % 100;
    assert(hundreds * fee <= hundreds * 100) by (nonlinear_arith)
        requires
            fee <= 100,
    ;
    assert(rest * fee <= 99 * 100) by (nonlinear_arith)
        requires
            rest <= 99,
            fee <= 100,
    ;
    assert(amount * fee == rest * fee + (hundreds * fee) * 100) by (nonlinear_arith)
        requires
            amount == hundreds * 100 + rest,
    ;
    assert(amount * fee / 100 <= amount) by (nonlinear_arith)
        requires
            fee <= 100,
    ;
    assert(hundreds * fee + rest * fee / 100 == amount * fee / 100) by {
        vstd::arithmetic::div_mod::lemma_hoist_over_denominator(
            rest * fee,
            hundreds * fee,
            100,
        );
    }
    hundreds * fee + rest * fee / 100
}

/// Whether `share` fits on top of the amount of every key.
fn fits_each(table: &AmountTable, keys: &Vec<AccountId>, share: u128) -> (fits: bool)
    requires
        forall|j: int| 0 <= j < keys.len() ==> table@.contains_key(#[trigger] keys@[j]),
    ensures
        fits == (forall|j: int|
            0 <= j < keys.len() ==> table@[#[trigger] keys@[j]] + share <= u128::MAX),
{
    let mut i: usize = 0;
    while i < keys.len()
        invariant
            i <= keys.len(),
            forall|j: int| 0 <= j < keys.len() ==> table@.contains_key(#[trigger] keys@[j]),
            forall|j: int| 0 <= j < i ==> table@[#[trigger] keys@[j]] + share <= u128::MAX,
        decreases keys.len() - i,
    {
        match table.get(&keys[i]) {
            Some(amount) => {
                if amount > u128::MAX - share {
                    return false;
                }
            },
            None => {},
        }
        i = i + 1;
    }
    true
}

/// The amounts of a table after `share` has been added under every key of
/// `keys`.
spec fn raised(amounts: Map<AccountId, u128>, keys: Set<AccountId>, share: int) -> Map<
    AccountId,
    u128,
> {
    Map::new(
        |account: AccountId| amounts.contains_key(account),
        |account: AccountId|
            if keys.contains(account) {
                (amounts[account] + share) as u128
            } else {
                amounts[account]
            },
    )
}

/// Adds `share` to the amount of every key.
fn add_to_each(table: &mut AmountTable, keys: &Vec<AccountId>, share: u128)
    requires
        old(table)@.dom().finite(),
        keys@.no_duplicates(),
        forall|j: int| 0 <= j < keys.len() ==> old(table)@.contains_key(#[trigger] keys@[j]),
        forall|j: int|
            0 <= j < keys.len() ==> old(table)@[#[trigger] keys@[j]] + share <= u128::MAX,
    ensures
        final(table)@ == raised(old(table)@, keys@.to_set(), share as int),
{
    let mut i: usize = 0;
    assert(table@ =~= raised(old(table)@, keys@.subrange(0, 0).to_set(), share as int));
    while i < keys.len()
        invariant
            i <= keys.len(),
            keys@.no_duplicates(),
            old(table)@.dom().finite(),
            forall|j: int| 0 <= j < keys.len() ==> old(table)@.contains_key(#[trigger] keys@[j]),
            forall|j: int|
                0 <= j < keys.len() ==> old(table)@[#[trigger] keys@[j]] + share <= u128::MAX,
            table@ == raised(old(table)@, keys@.subrange(0, i as int).to_set(), share as int),
        decreases keys.len() - i,
    {
        let key = keys[i];
        let ghost before = table@;
        assert(!keys@.subrange(0, i as int).contains(key)) by {
            if keys@.subrange(0, i as int).contains(key) {
                let j = choose|j: int|
                    0 <= j < i && keys@.subrange(0, i as int)[j] == key;
                assert(keys@[j] == keys@[i as int]);
            }
        }
        assert(before.contains_key(key));
        assert(before.dom() =~= old(table)@.dom());
        match table.get(&key) {
            Some(amount) => {
                assert(amount == old(table)@[key]);
                table.insert(key, amount + share);
            },
            None => {},
        }
        assert(keys@.subrange(0, i + 1) =~= keys@.subrange(0, i as int).push(key));
        assert(keys@.subrange(0, i + 1).to_set() =~= keys@.subrange(0, i as int).to_set().insert(
            key,
        )) by {
            keys@.subrange(0, i as int).lemma_push_to_set_commute(key);
        }
        assert(table@ =~= raised(old(table)@, keys@.subrange(0, i + 1).to_set(), share as int));
        i = i + 1;
    }
    assert(keys@.subrange(0, keys.len() as int) == keys@);
}

impl EdgewareBridge {
    /// Why charging `amount` to the daily limit of `asset` at `now` would
    /// fail, if it would.
    pub fn check_charge(&self, asset: &AccountId, amount: u128, now: u64) -> (error: Option<
        BridgeError,
    >)
        requires
            self.wf(),
        ensures
            error == (match self@.charge(*asset, amount, now) {
                Ok(_) => None,
                Err(error) => Some(error),
            }),
    {
        let limit = match self.daily_limit.get(asset) {
            Some(limit) => limit,
            None => {
                return Some(BridgeError::NoLimitConfigured);
            },
        };
        if limit == 0 {
            return Some(BridgeError::NoLimitConfigured);
        }
        let spent = self.spent_at(asset, now);
        if spent > limit || amount > limit - spent {
            return Some(BridgeError::DailyLimitExceeded);
        }
        None
    }

    /// What an asset that has a daily limit has spent in the window that
    /// holds `now`: nothing where its latest window has run out.
    pub fn spent_at(&self, asset: &AccountId, now: u64) -> (spent: u128)
        requires
            self.wf(),
            self@.daily_limit.contains_key(*asset),
        ensures
            spent == self@.spent_at(*asset, now),
    {
        let start = self.get_daily_limit_set_time(*asset);
        if now > start && now - start > ONE_DAY {
            0
        } else {
            self.get_daily_spend(*asset)
        }
    }

    /// Begins a new window at `now`, with nothing spent, for an asset whose
    /// window has run out, and leaves any other window as it is.
    pub fn update_daily_limit(&mut self, asset: &AccountId, now: u64)
        requires
            old(self).wf(),
            old(self)@.daily_limit.contains_key(*asset),
        ensures
            final(self).wf(),
            final(self)@ == (if old(self)@.window_over(*asset, now) {
                BridgeState {
                    daily_spend: old(self)@.daily_spend.insert(*asset, 0),
                    daily_limit_set_time: old(self)@.daily_limit_set_time.insert(*asset, now),
                    ..old(self)@
                }
            } else {
                old(self)@
            }),
    {
        let start = self.get_daily_limit_set_time(*asset);
        if now > start && now - start > ONE_DAY {
            self.daily_limit_set_time.insert(*asset, now);
            self.daily_spend.insert(*asset, 0);
            assert(self@.daily_spend.dom() =~= self@.daily_limit.dom());
            assert(self@.daily_limit_set_time.dom() =~= self@.daily_limit.dom());
        }
    }

    /// Charges `amount` to the daily limit of `asset` at `now`, or fails and
    /// changes nothing: an asset without a limit, or with a limit of zero,
    /// cannot be charged, and neither can an amount that does not fit in what
    /// the window has left. A window that has run out begins anew with the
    /// charge.
    pub fn check_asset_daily_limit(&mut self, asset: &AccountId, amount: u128, now: u64) -> (done:
        Result<(), BridgeError>)
        requires
            old(self).wf(),
        ensures
            final(self).wf(),
            old(self)@.charge(*asset, amount, now) == settled(done, final(self)@),
            done is Err ==> final(self)@ == old(self)@,
            done is Ok ==> final(self)@.daily_spend[*asset] <= final(self)@.daily_limit[*asset],
    {
        match self.check_charge(asset, amount, now) {
            Some(error) => Err(error),
            None => {
                self.commit_charge(asset, amount, now);
                Ok(())
            },
        }
    }

    /// Charges `amount` to the daily limit of `asset` at `now`, once nothing
    /// stands against it.
    fn commit_charge(&mut self, asset: &AccountId, amount: u128, now: u64)
        requires
            old(self).wf(),
            old(self)@.charge(*asset, amount, now) is Ok,
        ensures
            final(self).wf(),
            final(self)@ == old(self)@.charge(*asset, amount, now)->Ok_0,
            final(self)@.daily_spend[*asset] <= final(self)@.daily_limit[*asset],
    {
        self.update_daily_limit(asset, now);
        let spent = self.get_daily_spend(*asset);
        self.daily_spend.insert(*asset, spent + amount);
        assert(self@.daily_spend.dom() =~= self@.daily_limit.dom());
        assert(self@.daily_spend =~= old(self)@.charge(*asset, amount, now)->Ok_0.daily_spend);
        assert(self@.daily_limit_set_time =~= old(self)@.charge(
            *asset,
            amount,
            now,
        )->Ok_0.daily_limit_set_time);
    }

    /// Counts one more outbound transfer.
    pub fn increase_transfer_nonce(&mut self) -> (done: Result<(), BridgeError>)
        requires
            old(self).wf(),
        ensures
            final(self).wf(),
            old(self)@.increase_transfer_nonce() == settled(done, final(self)@),
            done is Err ==> final(self)@ == old(self)@,
    {
        if self.transfer_nonce == u128::MAX {
            return Err(BridgeError::Overflow);
        }
        self.transfer_nonce = self.transfer_nonce + 1;
        Ok(())
    }

    /// Whether the fee on `amount` can be divided among the validators: it
    /// cannot where the share would take a validator's rewards out of range.
    pub fn check_rewards(&self, amount: u128) -> (fits: bool)
        requires
            self.wf(),
        ensures
            fits == self@.distribute_rewards(amount) is Ok,
    {
        let keys = self.validators.keys();
        proof {
            keys@.unique_seq_to_set();
        }
        if keys.len() == 0 {
            return true;
        }
        let share = fee_of(amount, self.fee) / (keys.len() as u128);
        let fits = fits_each(&self.validator_rewards, &keys, share);
        proof {
            if fits {
                assert forall|validator: AccountId| #[trigger]
                    self@.validators.contains(validator) implies self@.reward_of(validator)
                    + self@.reward_share(amount) <= u128::MAX by {
                    let j = choose|j: int| 0 <= j < keys.len() && keys@[j] == validator;
                    assert(keys@[j] == validator);
                }
            } else {
                let j = choose|j: int|
                    0 <= j < keys.len() && !(self.validator_rewards@[#[trigger] keys@[j]] + share
                        <= u128::MAX);
                assert(self@.validators.contains(keys@[j]));
            }
        }
        fits
    }

    /// Divides the fee on `amount` among the validators in equal shares,
    /// rounded down, which are added to their rewards; what the division
    /// leaves over is lost. Without validators nothing happens. Fails, and
    /// changes nothing, where a validator's rewards would leave the range of
    /// `u128`.
    pub fn distribute_rewards_for_validators(&mut self, amount: u128) -> (done: Result<
        (),
        BridgeError,
    >)
        requires
            old(self).wf(),
        ensures
            final(self).wf(),
            old(self)@.distribute_rewards(amount) == settled(done, final(self)@),
            done is Err ==> final(self)@ == old(self)@,
    {
        if !self.check_rewards(amount) {
            return Err(BridgeError::Overflow);
        }
        self.commit_rewards(amount);
        Ok(())
    }

    /// Divides the fee on `amount` among the validators, once nothing stands
    /// against it.
    fn commit_rewards(&mut self, amount: u128)
        requires
            old(self).wf(),
            old(self)@.distribute_rewards(amount) is Ok,
        ensures
            final(self).wf(),
            final(self)@ == old(self)@.distribute_rewards(amount)->Ok_0,
    {
        let keys = self.validators.keys();
        proof {
            keys@.unique_seq_to_set();
        }
        if keys.len() == 0 {
            return ;
        }
        let share = fee_of(amount, self.fee) / (keys.len() as u128);
        assert forall|j: int| 0 <= j < keys.len() implies self.validator_rewards@.contains_key(
            #[trigger] keys@[j],
        ) && self.validator_rewards@[keys@[j]] + share <= u128::MAX by {
            assert(self@.validators.contains(keys@[j]));
            assert(self@.reward_of(keys@[j]) + self@.reward_share(amount) <= u128::MAX);
        }
        add_to_each(&mut self.validator_rewards, &keys, share);
        assert(self@.validator_rewards =~= old(self)@.rewards_after(amount));
        assert(self@.validator_rewards.dom() =~= old(self)@.validator_rewards.dom());
    }

    /// Hands the caller's rewards over: returns what the host has paid the
    /// caller, and sets the caller's rewards to zero. Fails, and changes
    /// nothing, where the caller has no rewards, and where the host says in
    /// `transferred` that its payment of them did not go through.
    pub fn request_rewards(&mut self, caller: AccountId, transferred: bool) -> (done: Result<
        u128,
        BridgeError,
    >)
        requires
            old(self).wf(),
        ensures
            final(self).wf(),
            old(self)@.request_rewards(caller, transferred) == settled(done, final(self)@),
            done is Err ==> final(self)@ == old(self)@,
            done is Ok ==> done->Ok_0 == old(self)@.reward_of(caller),
    {
        let rewards = self.get_validator_rewards(caller);
        if rewards == 0 {
            return Err(BridgeError::NoRewards);
        }
        if !transferred {
            return Err(BridgeError::ReleaseFailed);
        }
        self.validator_rewards.insert(caller, 0);
        assert(self@.validator_rewards.dom() =~= old(self)@.validator_rewards.dom());
        Ok(rewards)
    }
}

impl EdgewareBridge {
    /// Releases a swap: `receiver` gets `amount` less the fee, and the
    /// amount sent is returned. The native coin is paid by the host, which
    /// says in `transferred` whether its payment went through, and the
    /// validators share the fee on `amount`. A token is minted by the ledger,
    /// and nothing is shared. Fails, and changes nothing, where the payment
    /// did not go through, the ledger refuses to mint, or a validator's
    /// rewards would leave the range of `u128`.
    pub fn make_swap(
        &mut self,
        asset: AccountId,
        amount: u128,
        receiver: AccountId,
        transferred: bool,
    ) -> (done: Result<u128, BridgeError>)
        requires
            old(self).wf(),
        ensures
            final(self).wf(),
            old(self)@.make_swap(asset, amount, receiver, transferred) == settled(
                done,
                final(self)@,
            ),
            done is Err ==> final(self)@ == old(self)@,
            done is Ok ==> done->Ok_0 == amount_to_send(amount, old(self)@.fee),
    {
        let amount_to_send = amount - fee_of(amount, self.fee);
        if is_native(&asset) {
            if !self.check_rewards(amount) {
                return Err(BridgeError::Overflow);
            }
            if !transferred {
                return Err(BridgeError::ReleaseFailed);
            }
            self.commit_rewards(amount);
        } else {
            match self.token_contract.mint(self.account, amount_to_send, receiver) {
                Ok(_) => {},
                Err(_) => {
                    return Err(BridgeError::MintFailed);
                },
            }
        }
        Ok(amount_to_send)
    }

    /// Records the approval of `caller` for the swap with the hash
    /// `message_hash`, which pays `amount` of `asset`, less the fee, to
    /// `receiver`.
    ///
    /// The first approval of a hash makes the swap pending. A later approval
    /// joins the earlier ones, unless it completes the quorum: then the swap
    /// is released as `make_swap` says, and is no longer pending. A validator
    /// cannot approve a pending swap twice. A failing call changes nothing.
    pub fn approve_swap(
        &mut self,
        caller: AccountId,
        message_hash: Vec<u8>,
        asset: AccountId,
        amount: u128,
        receiver: AccountId,
        transferred: bool,
    ) -> (done: Result<SwapOutcome, BridgeError>)
        requires
            old(self).wf(),
        ensures
            final(self).wf(),
            old(self)@.approve_swap(caller, message_hash@, asset, amount, receiver, transferred)
                == settled(done, final(self)@),
            done is Err ==> final(self)@ == old(self)@,
            done is Ok ==> done->Ok_0 == old(self)@.swap_outcome(
                message_hash@,
                asset,
                amount,
                receiver,
            ),
    {
        match self.get_validators_who_approved(&message_hash) {
            None => {
                if self.swap_requests.len() == u32::MAX {
                    return Err(BridgeError::CapacityExceeded);
                }
                let mut approved: Vec<AccountId> = Vec::new();
                approved.push(caller);
                assert(approved@ =~= seq![caller]);
                self.swap_requests.insert(message_hash, approved);
                Ok(SwapOutcome::Recorded { approvals: 1 })
            },
            Some(approved) => {
                if self.is_in(&approved, &caller) {
                    return Err(BridgeError::DuplicateApproval);
                }
                if approved.len() + 1 >= self.signature_threshold as usize {
                    let amount_sent = match self.make_swap(asset, amount, receiver, transferred) {
                        Ok(amount_sent) => amount_sent,
                        Err(error) => {
                            return Err(error);
                        },
                    };
                    self.swap_requests.take(&message_hash);
                    Ok(SwapOutcome::Released { asset, receiver, amount: amount_sent })
                } else {
                    let mut approved = approved;
                    approved.push(caller);
                    let approvals = approved.len() as u16;
                    self.swap_requests.insert(message_hash, approved);
                    Ok(SwapOutcome::Recorded { approvals })
                }
            },
        }
    }

    /// Why a validator's request to swap would be turned down before its
    /// approval is looked at, if it would.
    pub fn check_request(&self, caller: AccountId, now: u64, transfer_info: &SwapMessage) -> (error:
        Option<BridgeError>)
        ensures
            error == self@.swap_refusal(caller, now, *transfer_info),
    {
        if !self.validators.contains_key(&caller) {
            return Some(BridgeError::Unauthorized);
        }
        if transfer_info.chain_id != self.chain_id {
            return Some(BridgeError::ChainMismatch);
        }
        if !self.check_expiration_time(now, transfer_info.timestamp) {
            return Some(BridgeError::Expired);
        }
        if !self.check_asset(&transfer_info.asset) {
            return Some(BridgeError::UnknownAsset);
        }
        if !can_encode(transfer_info) {
            return Some(BridgeError::Overflow);
        }
        None
    }

    /// A validator attests the deposit that `transfer_info` describes.
    ///
    /// The request is turned down where the caller is no validator, the
    /// message is meant for another chain, is older at `now` than the
    /// expiration time allows, names an asset that cannot be transferred, or
    /// has a sender too long to be encoded. Otherwise the caller's approval of
    /// the message's hash is dealt with as `approve_swap` says.
    pub fn request_swap(
        &mut self,
        caller: AccountId,
        now: u64,
        transfer_info: SwapMessage,
        transferred: bool,
    ) -> (done: Result<SwapOutcome, BridgeError>)
        requires
            old(self).wf(),
        ensures
            final(self).wf(),
            old(self)@.request_swap(
                caller,
                now,
                transfer_info,
                sha3_256(message_encoding(transfer_info)),
                transferred,
            ) == settled(done, final(self)@),
            done is Err ==> final(self)@ == old(self)@,
            done is Ok ==> done->Ok_0 == old(self)@.swap_outcome(
                sha3_256(message_encoding(transfer_info)),
                transfer_info.asset,
                transfer_info.amount,
                transfer_info.receiver,
            ),
    {
        match self.check_request(caller, now, &transfer_info) {
            Some(error) => {
                return Err(error);
            },
            None => {},
        }
        match hash_message(&transfer_info) {
            Some(message_hash) => self.approve_swap(
                caller,
                message_hash,
                transfer_info.asset,
                transfer_info.amount,
                transfer_info.receiver,
                transferred,
            ),
            None => Err(BridgeError::Overflow),
        }
    }

    /// The native payment that the host has to make before it hands the
    /// approval of `caller` for the swap with the hash `message_hash` to
    /// `approve_swap`, if there is one: the approval would complete the
    /// quorum of a swap of the native coin, and with the payment made it
    /// would succeed.
    pub fn approval_payment(
        &self,
        caller: AccountId,
        message_hash: &Vec<u8>,
        asset: AccountId,
        amount: u128,
        receiver: AccountId,
    ) -> (due: Option<Payment>)
        requires
            self.wf(),
        ensures
            due is Some == (asset == native_asset() && self@.completes_quorum(message_hash@)
                && self@.approve_swap(caller, message_hash@, asset, amount, receiver, true) is Ok),
            due is Some ==> due->0 == (Payment {
                receiver,
                amount: amount_to_send(amount, self@.fee) as u128,
            }),
    {
        if !is_native(&asset) {
            return None;
        }
        match self.get_validators_who_approved(message_hash) {
            None => None,
            Some(approved) => {
                if self.is_in(&approved, &caller) {
                    return None;
                }
                if approved.len() + 1 < self.signature_threshold as usize {
                    return None;
                }
                if !self.check_rewards(amount) {
                    return None;
                }
                Some(Payment { receiver, amount: amount - fee_of(amount, self.fee) })
            },
        }
    }

    /// The native payment that the host has to make before it hands the
    /// caller's request to `request_swap`, if there is one: the request would
    /// complete the quorum of a swap of the native coin, and with the payment
    /// made it would succeed.
    pub fn payment_due(&self, caller: AccountId, now: u64, transfer_info: &SwapMessage) -> (due:
        Option<Payment>)
        requires
            self.wf(),
        ensures
            due == self@.payment_due(
                caller,
                now,
                *transfer_info,
                sha3_256(message_encoding(*transfer_info)),
            ),
    {
        if self.check_request(caller, now, transfer_info).is_some() {
            return None;
        }
        match hash_message(transfer_info) {
            Some(message_hash) => self.approval_payment(
                caller,
                &message_hash,
                transfer_info.asset,
                transfer_info.amount,
                transfer_info.receiver,
            ),
            None => None,
        }
    }

    /// Sends `attached_deposit` of the native coin across the bridge, and
    /// returns the record of the transfer for the host to emit.
    ///
    /// The deposit is charged to the daily limit of the native coin, the
    /// transfer is counted, and the validators share the fee on the deposit.
    /// Fails, and changes nothing, where the deposit is below the least
    /// amount, where it cannot be charged, and where the nonce or a
    /// validator's rewards would leave the range of `u128`.
    pub fn transfer_coin(
        &mut self,
        caller: AccountId,
        now: u64,
        receiver: String,
        attached_deposit: u128,
    ) -> (done: Result<Transfer, BridgeError>)
        requires
            old(self).wf(),
        ensures
            final(self).wf(),
            old(self)@.transfer_coin(now, attached_deposit) == settled(done, final(self)@),
            done is Err ==> final(self)@ == old(self)@,
            done is Ok ==> {
                &&& done->Ok_0.receiver@ == receiver@
                &&& done->Ok_0.sender == caller
                &&& done->Ok_0.amount == attached_deposit
                &&& done->Ok_0.asset == native_asset()
                &&& done->Ok_0.transfer_nonce == old(self)@.transfer_nonce + 1
                &&& done->Ok_0.timestamp == now
            },
    {
        if attached_deposit < self.min_amount_to_transfer {
            return Err(BridgeError::BelowMinimum);
        }
        let zero = zero_address();
        match self.check_charge(&zero, attached_deposit, now) {
            Some(error) => {
                return Err(error);
            },
            None => {},
        }
        if self.transfer_nonce == u128::MAX {
            return Err(BridgeError::Overflow);
        }
        let rewards_fit = self.check_rewards(attached_deposit);
        proof {
            let charged = self@.charge(zero, attached_deposit, now)->Ok_0;
            let counted = charged.increase_transfer_nonce()->Ok_0;
            assert(counted.rewards_fit(attached_deposit) == self@.rewards_fit(attached_deposit));
        }
        if !rewards_fit {
            return Err(BridgeError::Overflow);
        }
        self.commit_charge(&zero, attached_deposit, now);
        self.transfer_nonce = self.transfer_nonce + 1;
        self.commit_rewards(attached_deposit);
        Ok(
            Transfer {
                receiver,
                sender: caller,
                amount: attached_deposit,
                asset: zero,
                transfer_nonce: self.transfer_nonce,
                timestamp: now,
            },
        )
    }

    /// Sends `amount` of a token across the bridge, and returns the record of
    /// the transfer for the host to emit.
    ///
    /// The amount is burnt from the caller's balance on the token ledger and
    /// charged to the daily limit of the asset, and the transfer is counted.
    /// Fails, and changes nothing, where the amount is below the least
    /// amount, the asset cannot be transferred, the caller holds too little,
    /// the ledger refuses to burn, the amount cannot be charged, or the nonce
    /// would leave the range of `u128`.
    pub fn transfer_token(
        &mut self,
        caller: AccountId,
        now: u64,
        receiver: String,
        amount: u128,
        asset: AccountId,
    ) -> (done: Result<Transfer, BridgeError>)
        requires
            old(self).wf(),
        ensures
            final(self).wf(),
            old(self)@.transfer_token(caller, now, amount, asset) == settled(done, final(self)@),
            done is Err ==> final(self)@ == old(self)@,
            done is Ok ==> {
                &&& done->Ok_0.receiver@ == receiver@
                &&& done->Ok_0.sender == caller
                &&& done->Ok_0.amount == amount
                &&& done->Ok_0.asset == asset
                &&& done->Ok_0.transfer_nonce == old(self)@.transfer_nonce + 1
                &&& done->Ok_0.timestamp == now
            },
    {
        if amount < self.min_amount_to_transfer {
            return Err(BridgeError::BelowMinimum);
        }
        if !self.check_asset(&asset) {
            return Err(BridgeError::UnknownAsset);
        }
        if self.token_contract.balance_of(caller) < amount {
            return Err(BridgeError::InsufficientBalance);
        }
        if self.token_contract.check_burn(self.account, amount, caller).is_some() {
            return Err(BridgeError::BurnFailed);
        }
        match self.check_charge(&asset, amount, now) {
            Some(error) => {
                return Err(error);
            },
            None => {},
        }
        if self.transfer_nonce == u128::MAX {
            return Err(BridgeError::Overflow);
        }
        match self.token_contract.burn(self.account, amount, caller) {
            Ok(_) => {},
            Err(_) => {
                return Err(BridgeError::BurnFailed);
            },
        }
        self.commit_charge(&asset, amount, now);
        self.transfer_nonce = self.transfer_nonce + 1;
        Ok(
            Transfer {
                receiver,
                sender: caller,
                amount,
                asset,
                transfer_nonce: self.transfer_nonce,
                timestamp: now,
            },
        )
    }
}

} // verus!

//! The bridge as a mathematical value, and what each operation makes of it.
//!
//! Every operation is a function from the state before the call, and what the
//! caller and the host supplied, to either the state after the call or the
//! error the call fails with. A failing call leaves the state as it was.

use vstd::prelude::*;
use crate::account::{AccountId, native_asset};
use crate::codec::{SwapMessage, encodable};
use crate::erc20token::TokenState;
use crate::tables::table_capacity;

verus! {

/// Seconds in a day: the length of a spending window, and the first
/// expiration time of a swap message.
pub const ONE_DAY: u64 = 86400;

/// Why an operation on the bridge failed.
#[derive(Clone, Copy, Debug, PartialEq, Eq)]
pub enum BridgeError {
    /// The caller is not the owner, or not a validator, as the operation asks.
    Unauthorized,
    /// A fee, threshold, limit or expiration time is out of range.
    InvalidConfig,
    /// A token would be registered with a daily limit of zero.
    InvalidLimit,
    /// The validator set is full, or a storage table has no room left.
    CapacityExceeded,
    /// Fewer validators than the signature threshold would remain.
    QuorumUnsafe,
    /// The asset is neither the native coin nor a registered token.
    UnknownAsset,
    /// The swap message is older than the expiration time allows.
    Expired,
    /// The amount is below the least amount that may be transferred.
    BelowMinimum,
    /// The asset has no daily limit, or a limit of zero.
    NoLimitConfigured,
    /// The amount does not fit in what is left of the asset's daily limit.
    DailyLimitExceeded,
    /// The validator has approved this swap before.
    DuplicateApproval,
    /// The swap message is meant for another chain.
    ChainMismatch,
    /// The caller holds fewer tokens than the transfer needs.
    InsufficientBalance,
    /// The token ledger refused to burn.
    BurnFailed,
    /// The token ledger refused to mint.
    MintFailed,
    /// The native payment did not go through.
    ReleaseFailed,
    /// The validator or token to remove is not registered.
    NotFound,
    /// The caller has no rewards to claim.
    NoRewards,
    /// A nonce or a reward would leave the range of `u128`, or a message is too
    /// long to be encoded.
    Overflow,
}

/// What a call of `request_swap` achieved.
#[derive(Clone, Copy, Debug, PartialEq, Eq)]
pub enum SwapOutcome {
    /// The approval was recorded; the swap now has `approvals` of them.
    Recorded { approvals: u16 },
    /// The approval completed the quorum: `amount`, the deposit less the fee,
    /// went to `receiver`, and the swap is no longer pending.
    Released { asset: AccountId, receiver: AccountId, amount: u128 },
}

/// A native payment that the host has to make.
#[derive(Clone, Copy, Debug, PartialEq, Eq)]
pub struct Payment {
    pub receiver: AccountId,
    pub amount: u128,
}

/// The fee on `amount` at `fee` percent, rounded down.
pub open spec fn fee_share(amount: u128, fee: u128) -> int {
    amount * fee / 100
}

/// What is paid out of `amount` at `fee` percent.
pub open spec fn amount_to_send(amount: u128, fee: u128) -> int {
    amount - fee_share(amount, fee)
}

/// The bridge as a mathematical value.
pub struct BridgeState {
    /// The validators that have approved each pending swap, by the swap's
    /// hash, in the order in which they approved.
    pub swap_requests: Map<Seq<u8>, Seq<AccountId>>,
    /// The registered tokens.
    pub tokens: Set<AccountId>,
    /// The validators.
    pub validators: Set<AccountId>,
    /// The daily limit of each asset that has one.
    pub daily_limit: Map<AccountId, u128>,
    /// What each asset has spent in its current window.
    pub daily_spend: Map<AccountId, u128>,
    /// When each asset's current window began.
    pub daily_limit_set_time: Map<AccountId, u64>,
    /// The rewards that each account can claim.
    pub validator_rewards: Map<AccountId, u128>,
    /// The fee, in percent.
    pub fee: u128,
    /// How many validators must approve a swap.
    pub signature_threshold: u16,
    /// How many validators there may be.
    pub max_validator_count: u16,
    /// How old a swap message may be, in seconds.
    pub tx_expiration_time: u64,
    /// Who may configure the bridge.
    pub owner: AccountId,
    /// The bridge's own account, under which it calls the token ledger.
    pub account: AccountId,
    /// The number of outbound transfers so far.
    pub transfer_nonce: u128,
    /// The token ledger.
    pub token_contract: TokenState,
    /// The chain this bridge releases on.
    pub chain_id: u8,
    /// The least amount that may be transferred out.
    pub min_amount_to_transfer: u128,
}

impl BridgeState {
    /// What holds of every bridge.
    pub open spec fn inv(self) -> bool {
        &&& self.swap_requests.dom().finite()
        &&& self.tokens.finite()
        &&& self.validators.finite()
        &&& self.daily_limit.dom().finite()
        &&& self.validator_rewards.dom().finite()
        &&& self.token_contract.inv()
        &&& self.fee <= 100
        &&& self.validators.len() <= self.max_validator_count
        &&& self.validators.subset_of(self.validator_rewards.dom())
        &&& self.tokens.subset_of(self.daily_limit.dom())
        &&& self.daily_spend.dom() == self.daily_limit.dom()
        &&& self.daily_limit_set_time.dom() == self.daily_limit.dom()
        &&& forall|hash: Seq<u8>| #[trigger]
            self.swap_requests.contains_key(hash) ==> {
                &&& 1 <= self.swap_requests[hash].len() <= u16::MAX
                &&& self.swap_requests[hash].no_duplicates()
            }
    }

    /// The rewards that `account` can claim, zero where it has no entry.
    pub open spec fn reward_of(self, account: AccountId) -> u128 {
        if self.validator_rewards.contains_key(account) {
            self.validator_rewards[account]
        } else {
            0
        }
    }

    /// How many validators have approved the swap with this hash.
    pub open spec fn approvals_of(self, hash: Seq<u8>) -> nat {
        if self.swap_requests.contains_key(hash) {
            self.swap_requests[hash].len()
        } else {
            0
        }
    }

    /// Whether `asset` can be transferred: the native coin and the registered
    /// tokens can.
    pub open spec fn is_transferable(self, asset: AccountId) -> bool {
        asset == native_asset() || self.tokens.contains(asset)
    }

    /// Whether a message made at `timestamp` is too old at `now`.
    pub open spec fn expired(self, now: u64, timestamp: u64) -> bool {
        now - timestamp > self.tx_expiration_time
    }

    /// Whether the window of `asset` has run out at `now`.
    pub open spec fn window_over(self, asset: AccountId, now: u64) -> bool {
        now - self.daily_limit_set_time[asset] > ONE_DAY
    }

    /// What `asset` has spent in the window that holds `now`.
    pub open spec fn spent_at(self, asset: AccountId, now: u64) -> u128 {
        if self.window_over(asset, now) {
            0
        } else {
            self.daily_spend[asset]
        }
    }

    /// What every validator gets of the fee on `amount`.
    pub open spec fn reward_share(self, amount: u128) -> int {
        fee_share(amount, self.fee) / (self.validators.len() as int)
    }

    /// The new owner takes over.
    pub open spec fn transfer_ownership(self, caller: AccountId, new_owner: AccountId) -> Result<
        BridgeState,
        BridgeError,
    > {
        if caller != self.owner {
            Err(BridgeError::Unauthorized)
        } else {
            Ok(BridgeState { owner: new_owner, ..self })
        }
    }

    /// The fee becomes `new_fee` percent.
    pub open spec fn set_fee(self, caller: AccountId, new_fee: u128) -> Result<
        BridgeState,
        BridgeError,
    > {
        if caller != self.owner {
            Err(BridgeError::Unauthorized)
        } else if new_fee > 100 {
            Err(BridgeError::InvalidConfig)
        } else {
            Ok(BridgeState { fee: new_fee, ..self })
        }
    }

    /// The signature threshold becomes `new_threshold`.
    pub open spec fn set_threshold(self, caller: AccountId, new_threshold: u16) -> Result<
        BridgeState,
        BridgeError,
    > {
        if caller != self.owner {
            Err(BridgeError::Unauthorized)
        } else if new_threshold == 0 || new_threshold > self.max_validator_count {
            Err(BridgeError::InvalidConfig)
        } else {
            Ok(BridgeState { signature_threshold: new_threshold, ..self })
        }
    }

    /// The expiration time becomes `new_time` seconds.
    pub open spec fn set_tx_expiration_time(self, caller: AccountId, new_time: u64) -> Result<
        BridgeState,
        BridgeError,
    > {
        if caller != self.owner {
            Err(BridgeError::Unauthorized)
        } else if new_time == 0 {
            Err(BridgeError::InvalidConfig)
        } else {
            Ok(BridgeState { tx_expiration_time: new_time, ..self })
        }
    }

    /// `validator` joins the validators.
    pub open spec fn add_validator(self, caller: AccountId, validator: AccountId) -> Result<
        BridgeState,
        BridgeError,
    > {
        if caller != self.owner {
            Err(BridgeError::Unauthorized)
        } else if self.validators.len() + 1 > self.max_validator_count {
            Err(BridgeError::CapacityExceeded)
        } else if !self.validator_rewards.contains_key(validator)
            && self.validator_rewards.dom().len() >= table_capacity() {
            Err(BridgeError::CapacityExceeded)
        } else {
            Ok(
                BridgeState {
                    validators: self.validators.insert(validator),
                    validator_rewards: self.validator_rewards.insert(
                        validator,
                        self.reward_of(validator),
                    ),
                    ..self
                },
            )
        }
    }

    /// `validator` leaves the validators.
    pub open spec fn remove_validator(self, caller: AccountId, validator: AccountId) -> Result<
        BridgeState,
        BridgeError,
    > {
        if caller != self.owner {
            Err(BridgeError::Unauthorized)
        } else if self.validators.len() - 1 < self.signature_threshold {
            Err(BridgeError::QuorumUnsafe)
        } else if !self.validators.contains(validator) {
            Err(BridgeError::NotFound)
        } else {
            Ok(BridgeState { validators: self.validators.remove(validator), ..self })
        }
    }

    /// `token` is registered with a daily limit, and its window begins at
    /// `now` with nothing spent.
    pub open spec fn add_token(
        self,
        caller: AccountId,
        now: u64,
        token: AccountId,
        limit: u128,
    ) -> Result<BridgeState, BridgeError> {
        if caller != self.owner {
            Err(BridgeError::Unauthorized)
        } else if limit == 0 {
            Err(BridgeError::InvalidLimit)
        } else if !self.tokens.contains(token) && self.tokens.len() >= table_capacity() {
            Err(BridgeError::CapacityExceeded)
        } else if !self.daily_limit.contains_key(token) && self.daily_limit.dom().len()
            >= table_capacity() {
            Err(BridgeError::CapacityExceeded)
        } else {
            Ok(
                BridgeState {
                    tokens: self.tokens.insert(token),
                    daily_limit: self.daily_limit.insert(token, limit),
                    daily_spend: self.daily_spend.insert(token, 0),
                    daily_limit_set_time: self.daily_limit_set_time.insert(token, now),
                    ..self
                },
            )
        }
    }

    /// `token` is no longer registered, and its limit and window are gone.
    pub open spec fn remove_token(self, caller: AccountId, token: AccountId) -> Result<
        BridgeState,
        BridgeError,
    > {
        if caller != self.owner {
            Err(BridgeError::Unauthorized)
        } else if !self.tokens.contains(token) {
            Err(BridgeError::NotFound)
        } else {
            Ok(
                BridgeState {
                    tokens: self.tokens.remove(token),
                    daily_limit: self.daily_limit.remove(token),
                    daily_spend: self.daily_spend.remove(token),
                    daily_limit_set_time: self.daily_limit_set_time.remove(token),
                    ..self
                },
            )
        }
    }

    /// The daily limit of a registered token becomes `new_limit`.
    pub open spec fn set_daily_limit(
        self,
        caller: AccountId,
        new_limit: u128,
        asset: AccountId,
    ) -> Result<BridgeState, BridgeError> {
        if caller != self.owner {
            Err(BridgeError::Unauthorized)
        } else if !self.tokens.contains(asset) {
            Err(BridgeError::UnknownAsset)
        } else if new_limit == 0 {
            Err(BridgeError::InvalidConfig)
        } else {
            Ok(BridgeState { daily_limit: self.daily_limit.insert(asset, new_limit), ..self })
        }
    }

    /// Every pending swap is forgotten, whatever approvals it had.
    pub open spec fn clean_request_swaps_list(self, caller: AccountId) -> Result<
        BridgeState,
        BridgeError,
    > {
        if caller != self.owner {
            Err(BridgeError::Unauthorized)
        } else {
            Ok(BridgeState { swap_requests: Map::empty(), ..self })
        }
    }

    /// `amount` of `asset` is charged to the asset's daily limit at `now`. A
    /// window that has run out begins anew at `now` with nothing spent.
    pub open spec fn charge(self, asset: AccountId, amount: u128, now: u64) -> Result<
        BridgeState,
        BridgeError,
    > {
        if !self.daily_limit.contains_key(asset) || self.daily_limit[asset] == 0 {
            Err(BridgeError::NoLimitConfigured)
        } else if self.spent_at(asset, now) + amount > self.daily_limit[asset] {
            Err(BridgeError::DailyLimitExceeded)
        } else {
            Ok(
                BridgeState {
                    daily_spend: self.daily_spend.insert(
                        asset,
                        (self.spent_at(asset, now) + amount) as u128,
                    ),
                    daily_limit_set_time: if self.window_over(asset, now) {
                        self.daily_limit_set_time.insert(asset, now)
                    } else {
                        self.daily_limit_set_time
                    },
                    ..self
                },
            )
        }
    }

    /// The transfer nonce goes up by one.
    pub open spec fn increase_transfer_nonce(self) -> Result<BridgeState, BridgeError> {
        if self.transfer_nonce == u128::MAX {
            Err(BridgeError::Overflow)
        } else {
            Ok(BridgeState { transfer_nonce: (self.transfer_nonce + 1) as u128, ..self })
        }
    }

    /// Whether the share of the fee on `amount` fits on top of the rewards of
    /// every validator.
    pub open spec fn rewards_fit(self, amount: u128) -> bool {
        forall|validator: AccountId| #[trigger]
            self.validators.contains(validator) ==> self.reward_of(validator) + self.reward_share(
                amount,
            ) <= u128::MAX
    }

    /// The rewards after every validator has got its share of the fee on
    /// `amount`.
    pub open spec fn rewards_after(self, amount: u128) -> Map<AccountId, u128> {
        Map::new(
            |account: AccountId| self.validator_rewards.contains_key(account),
            |account: AccountId|
                if self.validators.contains(account) {
                    (self.validator_rewards[account] + self.reward_share(amount)) as u128
                } else {
                    self.validator_rewards[account]
                },
        )
    }

    /// The fee on `amount` is divided among the validators in equal shares,
    /// rounded down. Without validators nothing happens.
    pub open spec fn distribute_rewards(self, amount: u128) -> Result<BridgeState, BridgeError> {
        if self.validators.len() == 0 {
            Ok(self)
        } else if !self.rewards_fit(amount) {
            Err(BridgeError::Overflow)
        } else {
            Ok(BridgeState { validator_rewards: self.rewards_after(amount), ..self })
        }
    }

    /// `caller` claims its rewards, which the host has paid if `transferred`.
    pub open spec fn request_rewards(self, caller: AccountId, transferred: bool) -> Result<
        BridgeState,
        BridgeError,
    > {
        if self.reward_of(caller) == 0 {
            Err(BridgeError::NoRewards)
        } else if !transferred {
            Err(BridgeError::ReleaseFailed)
        } else {
            Ok(BridgeState { validator_rewards: self.validator_rewards.insert(caller, 0), ..self })
        }
    }

    /// A deposit of the native coin is sent across the bridge at `now`: it is
    /// charged to the daily limit of the native coin, the transfer is counted,
    /// and the validators share the fee.
    pub open spec fn transfer_coin(self, now: u64, deposit: u128) -> Result<
        BridgeState,
        BridgeError,
    > {
        if deposit < self.min_amount_to_transfer {
            Err(BridgeError::BelowMinimum)
        } else {
            match self.charge(native_asset(), deposit, now) {
                Err(error) => Err(error),
                Ok(charged) => match charged.increase_transfer_nonce() {
                    Err(error) => Err(error),
                    Ok(counted) => counted.distribute_rewards(deposit),
                },
            }
        }
    }

    /// `caller` sends `amount` of a token across the bridge: the tokens are
    /// burnt from its balance, and the amount is charged to the daily limit
    /// of the asset.
    pub open spec fn transfer_token(
        self,
        caller: AccountId,
        now: u64,
        amount: u128,
        asset: AccountId,
    ) -> Result<BridgeState, BridgeError> {
        if amount < self.min_amount_to_transfer {
            Err(BridgeError::BelowMinimum)
        } else if !self.is_transferable(asset) {
            Err(BridgeError::UnknownAsset)
        } else if self.token_contract.balance_of(caller) < amount {
            Err(BridgeError::InsufficientBalance)
        } else {
            match self.token_contract.burn(self.account, amount, caller) {
                Err(_) => Err(BridgeError::BurnFailed),
                Ok(burnt) => match (BridgeState { token_contract: burnt, ..self }).charge(
                    asset,
                    amount,
                    now,
                ) {
                    Err(error) => Err(error),
                    Ok(charged) => charged.increase_transfer_nonce(),
                },
            }
        }
    }

    /// The release of a swap: `receiver` gets `amount` less the fee. The
    /// native coin is paid by the host, which says in `transferred` whether
    /// the payment went through, and the validators share the fee; a token is
    /// minted by the ledger.
    pub open spec fn make_swap(
        self,
        asset: AccountId,
        amount: u128,
        receiver: AccountId,
        transferred: bool,
    ) -> Result<BridgeState, BridgeError> {
        if asset == native_asset() {
            match self.distribute_rewards(amount) {
                Err(error) => Err(error),
                Ok(rewarded) => if transferred {
                    Ok(rewarded)
                } else {
                    Err(BridgeError::ReleaseFailed)
                },
            }
        } else {
            match self.token_contract.mint(
                self.account,
                amount_to_send(amount, self.fee) as u128,
                receiver,
            ) {
                Err(_) => Err(BridgeError::MintFailed),
                Ok(minted) => Ok(BridgeState { token_contract: minted, ..self }),
            }
        }
    }

    /// Whether one more approval completes the quorum of the swap with this
    /// hash: it does where the swap is pending and has all but one of the
    /// approvals that the threshold asks for.
    pub open spec fn completes_quorum(self, hash: Seq<u8>) -> bool {
        self.swap_requests.contains_key(hash) && self.swap_requests[hash].len() + 1
            >= self.signature_threshold
    }

    /// `caller` approves the swap with this hash. The first approval makes the
    /// swap pending; the one that completes the quorum releases the funds and
    /// forgets the swap.
    pub open spec fn approve_swap(
        self,
        caller: AccountId,
        hash: Seq<u8>,
        asset: AccountId,
        amount: u128,
        receiver: AccountId,
        transferred: bool,
    ) -> Result<BridgeState, BridgeError> {
        if !self.swap_requests.contains_key(hash) {
            if self.swap_requests.dom().len() >= table_capacity() {
                Err(BridgeError::CapacityExceeded)
            } else {
                Ok(BridgeState { swap_requests: self.swap_requests.insert(hash, seq![caller]), ..self })
            }
        } else if self.swap_requests[hash].contains(caller) {
            Err(BridgeError::DuplicateApproval)
        } else if self.completes_quorum(hash) {
            match self.make_swap(asset, amount, receiver, transferred) {
                Err(error) => Err(error),
                Ok(released) => Ok(
                    BridgeState { swap_requests: released.swap_requests.remove(hash), ..released },
                ),
            }
        } else {
            Ok(
                BridgeState {
                    swap_requests: self.swap_requests.insert(
                        hash,
                        self.swap_requests[hash].push(caller),
                    ),
                    ..self
                },
            )
        }
    }

    /// Why a validator's request to swap is turned down before its approval
    /// is looked at, if it is.
    pub open spec fn swap_refusal(self, caller: AccountId, now: u64, message: SwapMessage) -> Option<
        BridgeError,
    > {
        if !self.validators.contains(caller) {
            Some(BridgeError::Unauthorized)
        } else if message.chain_id != self.chain_id {
            Some(BridgeError::ChainMismatch)
        } else if self.expired(now, message.timestamp) {
            Some(BridgeError::Expired)
        } else if !self.is_transferable(message.asset) {
            Some(BridgeError::UnknownAsset)
        } else if !encodable(message.sender@) {
            Some(BridgeError::Overflow)
        } else {
            None
        }
    }

    /// `caller` attests the deposit that `message` describes, where `hash` is
    /// the hash of the message.
    pub open spec fn request_swap(
        self,
        caller: AccountId,
        now: u64,
        message: SwapMessage,
        hash: Seq<u8>,
        transferred: bool,
    ) -> Result<BridgeState, BridgeError> {
        match self.swap_refusal(caller, now, message) {
            Some(error) => Err(error),
            None => self.approve_swap(
                caller,
                hash,
                message.asset,
                message.amount,
                message.receiver,
                transferred,
            ),
        }
    }

    /// What an approval of `caller` for the swap with this hash is answered
    /// with, where it succeeds.
    pub open spec fn swap_outcome(
        self,
        hash: Seq<u8>,
        asset: AccountId,
        amount: u128,
        receiver: AccountId,
    ) -> SwapOutcome {
        if self.completes_quorum(hash) {
            SwapOutcome::Released {
                asset,
                receiver,
                amount: amount_to_send(amount, self.fee) as u128,
            }
        } else {
            SwapOutcome::Recorded { approvals: (self.approvals_of(hash) + 1) as u16 }
        }
    }

    /// The native payment that the host has to make before `caller`'s request
    /// to swap can succeed, if there is one: the request would complete the
    /// quorum of a swap of the native coin.
    pub open spec fn payment_due(
        self,
        caller: AccountId,
        now: u64,
        message: SwapMessage,
        hash: Seq<u8>,
    ) -> Option<Payment> {
        if message.asset == native_asset() && self.completes_quorum(hash) && self.request_swap(
            caller,
            now,
            message,
            hash,
            true,
        ) is Ok {
            Some(
                Payment {
                    receiver: message.receiver,
                    amount: amount_to_send(message.amount, self.fee) as u128,
                },
            )
        } else {
            None
        }
    }
}

} // verus!

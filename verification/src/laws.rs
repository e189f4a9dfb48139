//! What holds of the bridge across calls.

use vstd::prelude::*;
use crate::account::{AccountId, native_asset};
use crate::codec::SwapMessage;
use crate::tables::table_capacity;
use crate::state::{BridgeError, BridgeState};

verus! {

/// After a validator has been removed, there are still at least as many
/// validators as the signature threshold asks for.
pub proof fn law_removal_keeps_quorum(state: BridgeState, caller: AccountId, validator: AccountId)
    requires
        state.inv(),
        state.remove_validator(caller, validator) is Ok,
    ensures
        state.remove_validator(caller, validator)->Ok_0.validators.len()
            >= state.remove_validator(caller, validator)->Ok_0.signature_threshold,
        state.remove_validator(caller, validator)->Ok_0.inv(),
{
}

/// Adding a validator takes none away.
pub proof fn law_addition_keeps_validators(
    state: BridgeState,
    caller: AccountId,
    validator: AccountId,
)
    requires
        state.inv(),
        state.add_validator(caller, validator) is Ok,
    ensures
        state.add_validator(caller, validator)->Ok_0.validators.len() >= state.validators.len(),
        state.add_validator(caller, validator)->Ok_0.inv(),
{
}

/// A charge succeeds exactly where the asset has a limit that is not zero and
/// the amount fits in what its window has left, and after it the asset has
/// spent no more than its limit.
pub proof fn law_charge_respects_limit(state: BridgeState, asset: AccountId, amount: u128, now: u64)
    requires
        state.inv(),
    ensures
        state.charge(asset, amount, now) is Ok <==> state.daily_limit.contains_key(asset)
            && state.daily_limit[asset] != 0 && state.spent_at(asset, now) + amount
            <= state.daily_limit[asset],
        state.charge(asset, amount, now) is Ok ==> state.charge(
            asset,
            amount,
            now,
        )->Ok_0.daily_spend[asset] <= state.charge(asset, amount, now)->Ok_0.daily_limit[asset],
        state.charge(asset, amount, now) is Ok ==> state.charge(asset, amount, now)->Ok_0.inv(),
{
    if state.charge(asset, amount, now) is Ok {
        let after = state.charge(asset, amount, now)->Ok_0;
        assert(after.daily_spend.dom() =~= state.daily_spend.dom());
        assert(after.daily_limit_set_time.dom() =~= state.daily_limit_set_time.dom());
    }
}

/// A validator whose approval of a message was recorded, and whose swap is
/// still pending, cannot approve the same message again: the second request
/// fails as a duplicate, whatever the host says of a payment.
pub proof fn law_duplicate_approval(
    state: BridgeState,
    caller: AccountId,
    now: u64,
    message: SwapMessage,
    hash: Seq<u8>,
    transferred: bool,
    transferred_again: bool,
)
    requires
        state.inv(),
        state.request_swap(caller, now, message, hash, transferred) is Ok,
        state.request_swap(caller, now, message, hash, transferred)->Ok_0.swap_requests.contains_key(
            hash,
        ),
    ensures
        state.request_swap(caller, now, message, hash, transferred)->Ok_0.request_swap(
            caller,
            now,
            message,
            hash,
            transferred_again,
        ) == Err::<BridgeState, BridgeError>(BridgeError::DuplicateApproval),
{
    let after = state.request_swap(caller, now, message, hash, transferred)->Ok_0;
    assert(state.swap_refusal(caller, now, message) is None);
    if !state.swap_requests.contains_key(hash) {
        assert(after.swap_requests[hash] == seq![caller]);
        assert(seq![caller][0] == caller);
    } else if state.completes_quorum(hash) {
        let released = state.make_swap(
            message.asset,
            message.amount,
            message.receiver,
            transferred,
        )->Ok_0;
        assert(released.swap_requests == state.swap_requests);
        assert(!after.swap_requests.contains_key(hash));
    } else {
        let approved = state.swap_requests[hash];
        assert(after.swap_requests[hash] == approved.push(caller));
        assert(approved.push(caller)[approved.len() as int] == caller);
    }
    assert(after.swap_requests[hash].contains(caller));
    assert(after.validators == state.validators);
    assert(after.tokens == state.tokens);
    assert(after.swap_refusal(caller, now, message) is None);
}

/// The state after the accounts of `callers` have approved the swap with
/// this hash, one after another.
pub open spec fn approved_by(
    state: BridgeState,
    callers: Seq<AccountId>,
    hash: Seq<u8>,
    asset: AccountId,
    amount: u128,
    receiver: AccountId,
    transferred: bool,
) -> Result<BridgeState, BridgeError>
    decreases callers.len(),
{
    if callers.len() == 0 {
        Ok(state)
    } else {
        match approved_by(state, callers.drop_last(), hash, asset, amount, receiver, transferred) {
            Err(error) => Err(error),
            Ok(before) => before.approve_swap(
                callers.last(),
                hash,
                asset,
                amount,
                receiver,
                transferred,
            ),
        }
    }
}

/// With a signature threshold of at least two, a swap that is not pending
/// is released exactly once, by the approval that completes the threshold.
///
/// Every approval before that one, of accounts that differ from each other,
/// is recorded in its turn and changes nothing else. The approval that
/// brings their number to the threshold makes of the bridge what the release
/// alone would have made of it at the outset: the swap is not pending
/// afterwards, as it was not before. Only a table of pending swaps without
/// room for one more stands against the first approval, and with it against
/// all that follow.
pub proof fn law_quorum(
    state: BridgeState,
    callers: Seq<AccountId>,
    hash: Seq<u8>,
    asset: AccountId,
    amount: u128,
    receiver: AccountId,
    transferred: bool,
)
    requires
        state.inv(),
        state.signature_threshold >= 2,
        !state.swap_requests.contains_key(hash),
        callers.no_duplicates(),
        1 <= callers.len() <= state.signature_threshold,
    ensures
        approved_by(state, callers, hash, asset, amount, receiver, transferred) == (
        if state.swap_requests.dom().len() >= table_capacity() {
            Err::<BridgeState, BridgeError>(BridgeError::CapacityExceeded)
        } else if callers.len() < state.signature_threshold {
            Ok::<BridgeState, BridgeError>(
                BridgeState { swap_requests: state.swap_requests.insert(hash, callers), ..state },
            )
        } else {
            state.make_swap(asset, amount, receiver, transferred)
        }),
        approved_by(state, callers, hash, asset, amount, receiver, transferred) is Ok ==> (
        approved_by(
            state,
            callers,
            hash,
            asset,
            amount,
            receiver,
            transferred,
        )->Ok_0.swap_requests.contains_key(hash) <==> callers.len() < state.signature_threshold),
    decreases callers.len(),
{
    let earlier = callers.drop_last();
    let last = callers.last();
    if callers.len() == 1 {
        assert(earlier.len() == 0);
        assert(approved_by(state, earlier, hash, asset, amount, receiver, transferred) == Ok::<
            BridgeState,
            BridgeError,
        >(state));
        assert(seq![last] =~= callers);
    } else {
        assert(earlier.no_duplicates());
        law_quorum(state, earlier, hash, asset, amount, receiver, transferred);
        if state.swap_requests.dom().len() < table_capacity() {
            let before = BridgeState {
                swap_requests: state.swap_requests.insert(hash, earlier),
                ..state
            };
            assert(!earlier.contains(last)) by {
                if earlier.contains(last) {
                    let j = choose|j: int| 0 <= j < earlier.len() && earlier[j] == last;
                    assert(callers[j] == callers[callers.len() - 1]);
                }
            }
            assert(earlier.push(last) =~= callers);
            if callers.len() == state.signature_threshold {
                assert(before.completes_quorum(hash));
                assert(before.swap_requests.remove(hash) =~= state.swap_requests);
                assert(before.rewards_fit(amount) == state.rewards_fit(amount));
                assert(before.rewards_after(amount) =~= state.rewards_after(amount));
                match state.make_swap(asset, amount, receiver, transferred) {
                    Ok(released) => {
                        assert(released.swap_requests == state.swap_requests);
                        assert(before.make_swap(asset, amount, receiver, transferred) == Ok::<
                            BridgeState,
                            BridgeError,
                        >(BridgeState { swap_requests: before.swap_requests, ..released }));
                    },
                    Err(error) => {
                        assert(before.make_swap(asset, amount, receiver, transferred) == Err::<
                            BridgeState,
                            BridgeError,
                        >(error));
                    },
                }
            } else {
                assert(!before.completes_quorum(hash));
                assert(before.swap_requests.insert(hash, callers) =~= state.swap_requests.insert(
                    hash,
                    callers,
                ));
            }
        }
    }
}

/// The state after the fee on each of `deposits` has been divided among the
/// validators, one deposit after another.
pub open spec fn distributed(state: BridgeState, deposits: Seq<u128>) -> Result<
    BridgeState,
    BridgeError,
>
    decreases deposits.len(),
{
    if deposits.len() == 0 {
        Ok(state)
    } else {
        match distributed(state, deposits.drop_last()) {
            Err(error) => Err(error),
            Ok(before) => before.distribute_rewards(deposits.last()),
        }
    }
}

/// What one validator gets of the fees on `deposits`: of each fee its share,
/// rounded down.
pub open spec fn shares_of(state: BridgeState, deposits: Seq<u128>) -> int
    decreases deposits.len(),
{
    if deposits.len() == 0 {
        0
    } else {
        shares_of(state, deposits.drop_last()) + state.reward_share(deposits.last())
    }
}

/// A validator's rewards grow, deposit by deposit and release by release, by
/// its share of each fee, rounded down; a claim hands out exactly what has
/// grown since the claim before, and leaves nothing.
pub proof fn law_rewards_round_trip(state: BridgeState, deposits: Seq<u128>, validator: AccountId)
    requires
        state.inv(),
        state.validators.contains(validator),
        distributed(state, deposits) is Ok,
    ensures
        distributed(state, deposits)->Ok_0.inv(),
        distributed(state, deposits)->Ok_0.validators == state.validators,
        distributed(state, deposits)->Ok_0.fee == state.fee,
        distributed(state, deposits)->Ok_0.reward_of(validator) == state.reward_of(validator)
            + shares_of(state, deposits),
        distributed(state, deposits)->Ok_0.request_rewards(validator, true) is Ok <==> state.reward_of(
            validator,
        ) + shares_of(state, deposits) != 0,
        distributed(state, deposits)->Ok_0.request_rewards(validator, true) is Ok ==> distributed(
            state,
            deposits,
        )->Ok_0.request_rewards(validator, true)->Ok_0.reward_of(validator) == 0,
    decreases deposits.len(),
{
    if deposits.len() > 0 {
        let earlier = deposits.drop_last();
        law_rewards_round_trip(state, earlier, validator);
        let before = distributed(state, earlier)->Ok_0;
        let after = before.distribute_rewards(deposits.last())->Ok_0;
        assert(before.validators.len() > 0) by {
            if before.validators.len() == 0 {
                assert(before.validators =~= Set::empty());
            }
        }
        assert(before.reward_share(deposits.last()) == state.reward_share(deposits.last()));
        assert(after.validator_rewards.dom() =~= before.validator_rewards.dom());
    }
}

/// The validators share the fee on a deposit of native coin and on a release
/// of native coin, each as `distribute_rewards` says, and nothing on a
/// release of a token.
pub proof fn law_fee_accrual(
    state: BridgeState,
    now: u64,
    asset: AccountId,
    amount: u128,
    receiver: AccountId,
    transferred: bool,
)
    requires
        state.inv(),
    ensures
        state.transfer_coin(now, amount) is Ok ==> state.distribute_rewards(amount) is Ok
            && state.transfer_coin(now, amount)->Ok_0.validator_rewards
            == state.distribute_rewards(amount)->Ok_0.validator_rewards,
        asset == native_asset() && state.make_swap(asset, amount, receiver, transferred) is Ok
            ==> state.make_swap(asset, amount, receiver, transferred) == state.distribute_rewards(
            amount,
        ),
        asset != native_asset() && state.make_swap(asset, amount, receiver, transferred) is Ok
            ==> state.make_swap(asset, amount, receiver, transferred)->Ok_0.validator_rewards
            == state.validator_rewards,
{
    if state.transfer_coin(now, amount) is Ok {
        let charged = state.charge(native_asset(), amount, now)->Ok_0;
        let counted = charged.increase_transfer_nonce()->Ok_0;
        assert(counted.rewards_fit(amount) == state.rewards_fit(amount));
        assert(counted.rewards_after(amount) =~= state.rewards_after(amount));
    }
}

} // verus!

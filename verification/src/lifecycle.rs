//! Laws of the life of a swap: what holds of the contract's operations taken
//! together, stated over the transition functions that their contracts use.

use vstd::prelude::*;
use crate::coin::single_payment;
use crate::contract::{
    instantiate_next_state, instantiate_result, pending_swap, reply_next_state, reply_result,
    swap_admission, swap_next_state, swap_operations, swap_result, StateView, SwapCall,
    SWAP_REPLY_ID, TRUE_MAX_FEE,
};
use crate::decimal::Decimal;
use crate::error::{ErrorView, PaymentError};
use crate::fee::{
    effective_percentage, fee_amount, fee_split, lemma_effective_percentage_bounded,
    lemma_fee_within_deposit, requested_atomics, PERCENT_SCALE,
};
use crate::msg::{CosmosMsgView, ReplyOn, ResponseView, SubMsgResultView, SubMsgView};

verus! {

/// Exclusivity: while a swap is in flight, every further swap fails with
/// `ActiveSwapExists`, whatever its arguments, and changes nothing.
pub proof fn lemma_swap_refused_while_pending(pre: StateView, call: SwapCall)
    requires
        pre.active_swap is Some,
    ensures
        swap_result(pre, call) == Err::<ResponseView, ErrorView>(ErrorView::ActiveSwapExists),
        swap_next_state(pre, call) == pre,
{
}

/// A swap that succeeds leaves a swap in flight, so a second swap right
/// after it fails with `ActiveSwapExists`, whatever its arguments.
pub proof fn lemma_second_swap_refused(pre: StateView, first: SwapCall, second: SwapCall)
    requires
        swap_result(pre, first) is Ok,
    ensures
        pre.active_swap is None,
        swap_next_state(pre, first).active_swap is Some,
        swap_result(swap_next_state(pre, first), second) == Err::<ResponseView, ErrorView>(
            ErrorView::ActiveSwapExists,
        ),
        swap_next_state(swap_next_state(pre, first), second) == swap_next_state(pre, first),
{
}

/// A swap that fails persists nothing: the state is left as it was.
pub proof fn lemma_failed_swap_changes_nothing(pre: StateView, call: SwapCall)
    requires
        swap_result(pre, call) is Err,
    ensures
        swap_next_state(pre, call) == pre,
{
}

/// Completion clears the state unconditionally: after a completion
/// notification, whatever it reports and whether or not it is handled with
/// success, no swap is in flight. A further notification then finds nothing
/// to complete and fails with `Unexpected`.
pub proof fn lemma_completion_clears(pre: StateView, later: SubMsgResultView)
    ensures
        reply_next_state(pre).active_swap is None,
        reply_next_state(pre).max_fee_percentage == pre.max_fee_percentage,
        reply_result(reply_next_state(pre), later) == Err::<ResponseView, ErrorView>(
            ErrorView::Unexpected,
        ),
{
}

/// A failure of the swap engine is handed on with its reason unchanged, and
/// the swap in flight is cleared all the same.
pub proof fn lemma_engine_failure_is_reported(pre: StateView, reason: Seq<char>)
    requires
        pre.active_swap is Some,
    ensures
        reply_result(pre, SubMsgResultView::Failure { reason }) == Err::<
            ResponseView,
            ErrorView,
        >(ErrorView::FailedSwap { reason }),
        reply_next_state(pre).active_swap is None,
{
}

/// One swap at a time, from idle to pending and back: a swap that succeeds
/// on an idle contract followed by its completion notification leaves the
/// contract exactly as it was before the swap.
pub proof fn lemma_swap_then_completion_restores(pre: StateView, call: SwapCall)
    requires
        swap_result(pre, call) is Ok,
    ensures
        reply_next_state(swap_next_state(pre, call)) == pre,
{
    assert(pre.active_swap is None);
    assert(reply_next_state(swap_next_state(pre, call)) =~~= pre);
}

/// The fee ceiling is frozen once it is set: neither a swap nor a
/// completion changes it.
pub proof fn lemma_ceiling_is_frozen(pre: StateView, call: SwapCall)
    ensures
        swap_next_state(pre, call).max_fee_percentage == pre.max_fee_percentage,
        reply_next_state(pre).max_fee_percentage == pre.max_fee_percentage,
{
}

/// Every operation keeps the fee ceiling within its range.
pub proof fn lemma_operations_keep_ceiling_in_range(
    pre: StateView,
    given: Option<Decimal>,
    call: SwapCall,
)
    requires
        pre.wf(),
    ensures
        instantiate_next_state(pre, given).wf(),
        swap_next_state(pre, call).wf(),
        reply_next_state(pre).wf(),
{
}

/// An initialization succeeds exactly for a ceiling of at most
/// [`TRUE_MAX_FEE`], or for none; where it fails nothing is written.
pub proof fn lemma_initialization_is_bounded(pre: StateView, given: Option<Decimal>)
    ensures
        instantiate_result(given) is Ok <==> (given matches Some(ceiling) ==> ceiling.atomics
            <= TRUE_MAX_FEE),
        instantiate_result(given) is Err ==> instantiate_result(given) == Err::<
            ResponseView,
            ErrorView,
        >(ErrorView::InvalidMaxFeePercentage) && instantiate_next_state(pre, given) == pre,
{
}

/// On a contract whose ceiling is in range the fee of a swap always
/// computes: a swap fails only on the guard, on the payment, on the
/// collector's address or on a missing ceiling.
pub proof fn lemma_swap_fee_always_computes(pre: StateView, call: SwapCall)
    requires
        pre.wf(),
    ensures
        !(swap_result(pre, call) matches Err(e) && (e is Math || e is Overflow)),
{
    if pre.active_swap is None {
        if let Ok(deposit) = single_payment(call.funds) {
            if let Some(ceiling) = pre.max_fee_percentage {
                let requested = requested_atomics(call.fee_percentage);
                let percentage = effective_percentage(requested, ceiling.atomics as int);
                lemma_effective_percentage_bounded(requested, ceiling.atomics as int);
                lemma_fee_within_deposit(deposit.amount as int, percentage);
                assert(percentage <= PERCENT_SCALE);
                assert(fee_amount(deposit.amount as int, percentage) <= deposit.amount);
                assert(fee_split(deposit.amount as int, requested, ceiling.atomics as int) is Ok);
            }
        }
    }
}

/// What a swap that succeeds does with the deposit: the fee and the amount
/// that is swapped add up to the deposit, in the deposit's denomination; the
/// fee is the floored share at the effective percentage; and either one
/// operation is scheduled, the swap alone, when the fee is zero, or two, the
/// fee transfer before the swap. The request that is scheduled last is the
/// one that is recorded, so a swap is pending only if its request went out.
pub proof fn lemma_swap_conserves_deposit(pre: StateView, call: SwapCall)
    requires
        swap_result(pre, call) is Ok,
    ensures
        ({
            let (deposit, split) = swap_admission(pre, call)->Ok_0;
            let recorded = pending_swap(call, deposit, split);
            let operations = swap_result(pre, call)->Ok_0.messages;
            &&& single_payment(call.funds) == Ok::<_, PaymentError>(deposit)
            &&& recorded.fee.amount + recorded.swap_msg.token_in.amount == deposit.amount
            &&& recorded.fee.denom == deposit.denom
            &&& recorded.swap_msg.token_in.denom == deposit.denom
            &&& recorded.fee.amount == fee_amount(
                deposit.amount as int,
                effective_percentage(
                    requested_atomics(call.fee_percentage),
                    pre.max_fee_percentage->Some_0.atomics as int,
                ),
            )
            &&& operations == swap_operations(call, deposit, split)
            &&& recorded.fee.amount == 0 ==> operations.len() == 1
            &&& recorded.fee.amount > 0 ==> operations.len() == 2
            &&& operations.last() == (SubMsgView {
                id: SWAP_REPLY_ID,
                msg: CosmosMsgView::Swap(recorded.swap_msg),
                reply_on: ReplyOn::Always,
            })
            &&& swap_next_state(pre, call).active_swap == Some(recorded)
        }),
{
    let (deposit, split) = swap_admission(pre, call)->Ok_0;
    let ceiling = pre.max_fee_percentage->Some_0;
    let requested = requested_atomics(call.fee_percentage);
    assert(fee_split(deposit.amount as int, requested, ceiling.atomics as int) == Ok::<
        _,
        ErrorView,
    >(split));
}

} // verus!

//! The contract: its two persisted slots and the operations on them.
//!
//! A swap goes through two calls. `swap` takes the fee, schedules the swap
//! request and records the swap as pending; `reply`, called when the swap
//! engine has finished, clears the record and forwards the proceeds. The
//! pending record is the only thing that lives from one call to the other.

use vstd::prelude::*;
use crate::coin::{coins_view, one_coin, single_payment, Coin, CoinView};
use crate::decimal::Decimal;
use crate::error::{ContractError, ErrorView};
use crate::fee::{compute_fee, fee_split, requested_atomics, FeeSplit, PERCENT_SCALE};
use crate::msg::{
    routes_view, AddressValidation, AddressValidationView, AttributeView, BankMsg, CosmosMsg,
    CosmosMsgView, Env, Event, EventView, MaxFeePercentageResponse, MessageInfo,
    MsgSwapExactAmountIn, Reply, ReplyOn, Response, ResponseView, RouteView, SubMsg,
    SubMsgResult, SubMsgResultView, SubMsgView, SwapAmountInRoute, SwapMsgView, SwapResponse,
    SwapResponseView,
};
use crate::payload::{reported_amount, token_out_amount};

verus! {

/// The fee ceiling of a contract that is initialized without one: 1.5
/// percent, in atomic units.
pub const DEFAULT_MAX_FEE: u128 = 1_500_000_000_000_000_000;

/// The largest fee ceiling that a contract can be initialized with: 10
/// percent, in atomic units.
pub const TRUE_MAX_FEE: u128 = 10_000_000_000_000_000_000;

/// The name under which the contract registers itself.
pub const CONTRACT_NAME: &'static str = "crates.io:affiliate_swap";

/// The version under which the contract registers itself.
pub const CONTRACT_VERSION: &'static str = "0.1.0";

/// The identifier that tags the completion notification of a swap request.
pub const SWAP_REPLY_ID: u64 = 1;

/// The record of a swap in flight: who started it, which fee was taken and
/// for whom, and the request that went to the swap engine.
#[derive(Debug, PartialEq, Eq)]
pub struct ActiveSwap {
    pub original_sender: String,
    pub fee: Coin,
    pub fee_collector: String,
    pub swap_msg: MsgSwapExactAmountIn,
}

/// The mathematical content of an [`ActiveSwap`].
#[verifier::ext_equal]
pub struct ActiveSwapView {
    pub original_sender: Seq<char>,
    pub fee: CoinView,
    pub fee_collector: Seq<char>,
    pub swap_msg: SwapMsgView,
}

impl View for ActiveSwap {
    type V = ActiveSwapView;

    open spec fn view(&self) -> ActiveSwapView {
        ActiveSwapView {
            original_sender: self.original_sender@,
            fee: self.fee@,
            fee_collector: self.fee_collector@,
            swap_msg: self.swap_msg@,
        }
    }
}

impl Clone for ActiveSwap {
    fn clone(&self) -> (c: ActiveSwap)
        ensures
            c@ == self@,
    {
        ActiveSwap {
            original_sender: self.original_sender.clone(),
            fee: self.fee.clone(),
            fee_collector: self.fee_collector.clone(),
            swap_msg: self.swap_msg.clone(),
        }
    }
}

/// The contract's persisted state as a mathematical value: the fee ceiling,
/// absent before initialization, and the swap in flight, if there is one.
#[verifier::ext_equal]
pub struct StateView {
    pub max_fee_percentage: Option<Decimal>,
    pub active_swap: Option<ActiveSwapView>,
}

impl StateView {
    /// A fee ceiling, where there is one, is at most [`TRUE_MAX_FEE`].
    pub open spec fn wf(self) -> bool {
        self.max_fee_percentage matches Some(ceiling) ==> ceiling.atomics <= TRUE_MAX_FEE
    }
}

/// The contract with its two persisted slots: the fee ceiling and the swap
/// in flight. A fee ceiling held here is never above [`TRUE_MAX_FEE`].
#[derive(Debug, PartialEq, Eq)]
pub struct AffiliateSwap {
    max_fee_percentage: Option<Decimal>,
    active_swap: Option<ActiveSwap>,
}

impl View for AffiliateSwap {
    type V = StateView;

    closed spec fn view(&self) -> StateView {
        StateView {
            max_fee_percentage: self.max_fee_percentage,
            active_swap: match self.active_swap {
                Some(active) => Some(active@),
                None => None,
            },
        }
    }
}

/// The fee ceiling that an initialization sets: the one given, or the
/// default where none is given.
pub open spec fn chosen_ceiling(given: Option<Decimal>) -> Decimal {
    match given {
        Some(ceiling) => ceiling,
        None => Decimal { atomics: DEFAULT_MAX_FEE },
    }
}

/// What an initialization returns: a response that names the operation and
/// the contract, or `InvalidMaxFeePercentage` for a ceiling above
/// [`TRUE_MAX_FEE`].
pub open spec fn instantiate_result(given: Option<Decimal>) -> Result<ResponseView, ErrorView> {
    if chosen_ceiling(given).atomics > TRUE_MAX_FEE {
        Err(ErrorView::InvalidMaxFeePercentage)
    } else {
        Ok(
            ResponseView {
                messages: Seq::empty(),
                attributes: seq![
                    AttributeView { key: "method"@, value: "instantiate"@ },
                    AttributeView { key: "contract_name"@, value: CONTRACT_NAME@ },
                    AttributeView { key: "contract_version"@, value: CONTRACT_VERSION@ },
                ],
                events: Seq::empty(),
                data: None,
            },
        )
    }
}

/// The state after an initialization: the ceiling is set where it is
/// accepted, and nothing changes where it is not.
pub open spec fn instantiate_next_state(pre: StateView, given: Option<Decimal>) -> StateView {
    if chosen_ceiling(given).atomics > TRUE_MAX_FEE {
        pre
    } else {
        StateView { max_fee_percentage: Some(chosen_ceiling(given)), ..pre }
    }
}

/// The state that the given contents of the two slots make up.
pub open spec fn restored_state(
    max_fee_percentage: Option<Decimal>,
    active_swap: Option<ActiveSwap>,
) -> StateView {
    StateView {
        max_fee_percentage,
        active_swap: match active_swap {
            Some(active) => Some(active@),
            None => None,
        },
    }
}

/// What the query for the fee ceiling returns: the ceiling, or a `Std`
/// error before initialization.
pub open spec fn max_fee_result(state: StateView) -> Result<MaxFeePercentageResponse, ErrorView> {
    match state.max_fee_percentage {
        Some(ceiling) => Ok(MaxFeePercentageResponse { max_fee_percentage: ceiling }),
        None => Err(ErrorView::Std { msg: "max fee percentage not found"@ }),
    }
}

/// The arguments of a `swap` call, with what the environment says of it.
#[verifier::ext_equal]
pub struct SwapCall {
    /// The contract's own address.
    pub contract_address: Seq<char>,
    /// The caller.
    pub sender: Seq<char>,
    /// The funds attached to the call.
    pub funds: Seq<CoinView>,
    /// The route of the swap, hop by hop.
    pub routes: Seq<RouteView>,
    /// The least output that the caller accepts.
    pub token_out_min_amount: CoinView,
    /// The fee percentage that the caller asks for.
    pub fee_percentage: Option<Decimal>,
    /// The address that the fee goes to.
    pub fee_collector: Seq<char>,
    /// The verdict of the address check on the fee collector.
    pub collector_validation: AddressValidationView,
}

/// The request that goes to the swap engine. The contract itself is the
/// sender, since it is the contract that receives the output; what goes in
/// is the deposit less the fee.
pub open spec fn swap_request(call: SwapCall, deposit: CoinView, split: FeeSplit) -> SwapMsgView {
    SwapMsgView {
        sender: call.contract_address,
        routes: call.routes,
        token_in: CoinView { denom: deposit.denom, amount: split.remaining },
        token_out_min_amount: call.token_out_min_amount.amount,
    }
}

/// The transfer of the fee to its collector, fire and forget.
pub open spec fn fee_transfer(call: SwapCall, deposit: CoinView, split: FeeSplit) -> SubMsgView {
    SubMsgView {
        id: 0,
        msg: CosmosMsgView::Send {
            to_address: call.fee_collector,
            amount: seq![CoinView { denom: deposit.denom, amount: split.fee }],
        },
        reply_on: ReplyOn::Never,
    }
}

/// The operations that a swap schedules: the swap request, whose completion
/// is notified under [`SWAP_REPLY_ID`] on success and on failure, and before
/// it the fee transfer, unless the fee is zero.
pub open spec fn swap_operations(call: SwapCall, deposit: CoinView, split: FeeSplit) -> Seq<SubMsgView> {
    let request = SubMsgView {
        id: SWAP_REPLY_ID,
        msg: CosmosMsgView::Swap(swap_request(call, deposit, split)),
        reply_on: ReplyOn::Always,
    };
    if split.fee > 0 {
        seq![fee_transfer(call, deposit, split), request]
    } else {
        seq![request]
    }
}

/// The record that a swap leaves behind for its completion.
pub open spec fn pending_swap(call: SwapCall, deposit: CoinView, split: FeeSplit) -> ActiveSwapView {
    ActiveSwapView {
        original_sender: call.sender,
        fee: CoinView { denom: deposit.denom, amount: split.fee },
        fee_collector: call.fee_collector,
        swap_msg: swap_request(call, deposit, split),
    }
}

/// The checks that a swap passes before anything is scheduled or recorded,
/// in their order: no swap is in flight, the funds are a payment in one
/// denomination, the fee collector's address is valid, the contract is
/// initialized, and the fee can be computed. Where all pass, the deposit and
/// its split come out; otherwise the error of the first check that fails.
pub open spec fn swap_admission(pre: StateView, call: SwapCall) -> Result<(CoinView, FeeSplit), ErrorView> {
    if pre.active_swap is Some {
        Err(ErrorView::ActiveSwapExists)
    } else {
        match single_payment(call.funds) {
            Err(e) => Err(ErrorView::Payment(e)),
            Ok(deposit) => match call.collector_validation {
                AddressValidationView::Invalid { reason } => Err(ErrorView::Std { msg: reason }),
                AddressValidationView::Valid => match pre.max_fee_percentage {
                    None => Err(ErrorView::Std { msg: "max fee percentage not found"@ }),
                    Some(ceiling) => match fee_split(
                        deposit.amount as int,
                        requested_atomics(call.fee_percentage),
                        ceiling.atomics as int,
                    ) {
                        Err(e) => Err(e),
                        Ok(split) => Ok((deposit, split)),
                    },
                },
            },
        }
    }
}

/// What a swap returns: the scheduled operations under the attribute
/// `method = swap`, or the error of the first check that fails.
pub open spec fn swap_result(pre: StateView, call: SwapCall) -> Result<ResponseView, ErrorView> {
    match swap_admission(pre, call) {
        Err(e) => Err(e),
        Ok((deposit, split)) => Ok(
            ResponseView {
                messages: swap_operations(call, deposit, split),
                attributes: seq![AttributeView { key: "method"@, value: "swap"@ }],
                events: Seq::empty(),
                data: None,
            },
        ),
    }
}

/// The state after a swap: the swap is recorded as pending where the call
/// succeeds, and nothing changes where it fails.
pub open spec fn swap_next_state(pre: StateView, call: SwapCall) -> StateView {
    match swap_admission(pre, call) {
        Err(_) => pre,
        Ok((deposit, split)) => StateView {
            active_swap: Some(pending_swap(call, deposit, split)),
            ..pre
        },
    }
}

/// The arguments of a `swap` call as one mathematical value.
pub open spec fn swap_call(
    env: Env,
    info: MessageInfo,
    routes: Vec<SwapAmountInRoute>,
    token_out_min_amount: Coin,
    fee_percentage: Option<Decimal>,
    fee_collector: String,
    collector_validation: AddressValidation,
) -> SwapCall {
    SwapCall {
        contract_address: env.contract_address@,
        sender: info.sender@,
        funds: coins_view(info.funds@),
        routes: routes_view(routes@),
        token_out_min_amount: token_out_min_amount@,
        fee_percentage,
        fee_collector: fee_collector@,
        collector_validation: collector_validation@,
    }
}

/// The coin that a completed swap pays out: the reported amount in the
/// denomination that the last hop of the recorded route trades into.
pub open spec fn swap_output(active: ActiveSwapView, token_out_amount: u128) -> CoinView {
    CoinView { denom: active.swap_msg.routes.last().token_out_denom, amount: token_out_amount }
}

/// The audit event of a completed swap: who swapped, what went into the
/// swap, which fee was taken, and what came out, each coin as text.
pub open spec fn swap_event(active: ActiveSwapView, token_out_amount: u128) -> EventView {
    EventView {
        ty: "affiliate_swap"@,
        attributes: seq![
            AttributeView { key: "sender"@, value: active.original_sender },
            AttributeView { key: "swap_token_in"@, value: active.swap_msg.token_in.text() },
            AttributeView { key: "fee"@, value: active.fee.text() },
            AttributeView {
                key: "token_out"@,
                value: swap_output(active, token_out_amount).text(),
            },
        ],
    }
}

/// The machine-readable report of a completed swap.
pub open spec fn swap_report(active: ActiveSwapView, token_out_amount: u128) -> SwapResponseView {
    SwapResponseView {
        original_sender: active.original_sender,
        fee: active.fee.amount,
        fee_collector: active.fee_collector,
        swap_in_denom: active.swap_msg.token_in.denom,
        swap_in_amount: active.swap_msg.token_in.amount,
        token_out_denom: swap_output(active, token_out_amount).denom,
        token_out_amount,
    }
}

/// What the completion of a successful swap returns: one payout of the
/// whole output to the caller who started the swap, with the audit event
/// and the report; or `Unexpected` where the recorded route has no hop and
/// so names no output denomination.
pub open spec fn completion_result(active: ActiveSwapView, token_out_amount: u128) -> Result<ResponseView, ErrorView> {
    if active.swap_msg.routes.len() == 0 {
        Err(ErrorView::Unexpected)
    } else {
        Ok(
            ResponseView {
                messages: seq![
                    SubMsgView {
                        id: 0,
                        msg: CosmosMsgView::Send {
                            to_address: active.original_sender,
                            amount: seq![swap_output(active, token_out_amount)],
                        },
                        reply_on: ReplyOn::Never,
                    },
                ],
                attributes: Seq::empty(),
                events: seq![swap_event(active, token_out_amount)],
                data: Some(swap_report(active, token_out_amount)),
            },
        )
    }
}

/// What a completion notification returns. Without a swap in flight it is
/// `Unexpected`. A failure of the swap engine is `FailedSwap` with the
/// engine's reason, unchanged. A success without payload, or with one that
/// cannot be read, is a `Std` error. Otherwise it is the completion of the
/// recorded swap with the reported amount.
pub open spec fn reply_result(pre: StateView, outcome: SubMsgResultView) -> Result<ResponseView, ErrorView> {
    match pre.active_swap {
        None => Err(ErrorView::Unexpected),
        Some(active) => match outcome {
            SubMsgResultView::Failure { reason } => Err(ErrorView::FailedSwap { reason }),
            SubMsgResultView::Success { data: None } => Err(
                ErrorView::Std { msg: "swap reply carries no data"@ },
            ),
            SubMsgResultView::Success { data: Some(bytes) } => match reported_amount(bytes) {
                Err(e) => Err(e),
                Ok(amount) => completion_result(active, amount),
            },
        },
    }
}

/// The state after a completion notification: no swap is in flight,
/// whatever the notification said.
pub open spec fn reply_next_state(pre: StateView) -> StateView {
    StateView { active_swap: None, ..pre }
}

/// Completes a recorded swap whose output amount is known: schedules the
/// payout of the whole output to the caller who started it and reports the swap.
pub fn complete_swap(active_swap: ActiveSwap, token_out_amount: u128) -> (r: Result<Response, ContractError>)
    ensures
        match r {
            Ok(response) => completion_result(active_swap@, token_out_amount)
                == Ok::<ResponseView, ErrorView>(response@),
            Err(e) => completion_result(active_swap@, token_out_amount)
                == Err::<ResponseView, ErrorView>(e@),
        },
{
    let hops = active_swap.swap_msg.routes.len();
    if hops == 0 {
        assert(active_swap@.swap_msg.routes.len() == 0);
        return Err(ContractError::Unexpected {  });
    }
    let ghost active = active_swap@;
    assert(active.swap_msg.routes.last() == active_swap.swap_msg.routes@[hops - 1]@);
    let token_out = Coin {
        denom: active_swap.swap_msg.routes[hops - 1].token_out_denom.clone(),
        amount: token_out_amount,
    };
    assert(token_out@ == swap_output(active, token_out_amount));
    let event = Event::new("affiliate_swap").add_attribute(
        "sender",
        active_swap.original_sender.clone(),
    ).add_attribute("swap_token_in", active_swap.swap_msg.token_in.to_string()).add_attribute(
        "fee",
        active_swap.fee.to_string(),
    ).add_attribute("token_out", token_out.to_string());
    assert(event@ =~~= swap_event(active, token_out_amount));
    let report = SwapResponse {
        original_sender: active_swap.original_sender.clone(),
        fee: active_swap.fee.amount,
        fee_collector: active_swap.fee_collector,
        swap_in_denom: active_swap.swap_msg.token_in.denom,
        swap_in_amount: active_swap.swap_msg.token_in.amount,
        token_out_denom: token_out.denom.clone(),
        token_out_amount,
    };
    assert(report@ == swap_report(active, token_out_amount));
    let mut amount: Vec<Coin> = Vec::new();
    amount.push(token_out);
    let payout = CosmosMsg::Bank(
        BankMsg::Send { to_address: active_swap.original_sender, amount },
    );
    assert(payout@ =~~= (CosmosMsgView::Send {
        to_address: active.original_sender,
        amount: seq![swap_output(active, token_out_amount)],
    }));
    let response = Response::new().add_message(payout).set_data(report).add_event(event);
    assert(response@ =~~= completion_result(active, token_out_amount)->Ok_0);
    Ok(response)
}

impl AffiliateSwap {
    #[verifier::type_invariant]
    spec fn ceiling_in_range(self) -> bool {
        self@.wf()
    }

    /// The contract before initialization: no fee ceiling, no swap in flight.
    pub fn new() -> (contract: AffiliateSwap)
        ensures
            contract@ == (StateView { max_fee_percentage: None, active_swap: None }),
    {
        AffiliateSwap { max_fee_percentage: None, active_swap: None }
    }

    /// The contract with the given contents of its two slots, as read back
    /// from storage. A fee ceiling above [`TRUE_MAX_FEE`] is refused with
    /// `InvalidMaxFeePercentage`.
    pub fn restore(max_fee_percentage: Option<Decimal>, active_swap: Option<ActiveSwap>) -> (r: Result<AffiliateSwap, ContractError>)
        ensures
            match r {
                Ok(contract) => restored_state(max_fee_percentage, active_swap).wf() && contract@
                    == restored_state(max_fee_percentage, active_swap),
                Err(e) => !restored_state(max_fee_percentage, active_swap).wf() && e@
                    == ErrorView::InvalidMaxFeePercentage,
            },
    {
        if let Some(ceiling) = max_fee_percentage {
            if ceiling.atomics > TRUE_MAX_FEE {
                return Err(ContractError::InvalidMaxFeePercentage {  });
            }
        }
        Ok(AffiliateSwap { max_fee_percentage, active_swap })
    }

    /// The fee ceiling as it stands in its slot.
    pub fn max_fee_percentage(&self) -> (ceiling: Option<Decimal>)
        ensures
            ceiling == self@.max_fee_percentage,
            self@.wf(),
    {
        proof {
            use_type_invariant(self);
        }
        self.max_fee_percentage
    }

    /// The swap in flight as it stands in its slot.
    pub fn active_swap(&self) -> (active: Option<&ActiveSwap>)
        ensures
            match active {
                Some(a) => self@.active_swap == Some(a@),
                None => self@.active_swap is None,
            },
    {
        self.active_swap.as_ref()
    }

    /// Initializes the contract with a fee ceiling, or with the default one
    /// of 1.5 percent where none is given. A ceiling above 10 percent is
    /// rejected and leaves the contract as it was.
    pub fn instantiate(&mut self, max_fee_percentage: Option<Decimal>) -> (r: Result<Response, ContractError>)
        ensures
            match r {
                Ok(response) => instantiate_result(max_fee_percentage)
                    == Ok::<ResponseView, ErrorView>(response@),
                Err(e) => instantiate_result(max_fee_percentage)
                    == Err::<ResponseView, ErrorView>(e@),
            },
            final(self)@ == instantiate_next_state(old(self)@, max_fee_percentage),
            final(self)@.wf(),
    {
        proof {
            use_type_invariant(&*self);
        }
        let ceiling = match max_fee_percentage {
            Some(given) => given,
            None => Decimal::raw(DEFAULT_MAX_FEE),
        };
        if ceiling.atomics > TRUE_MAX_FEE {
            return Err(ContractError::InvalidMaxFeePercentage {  });
        }
        self.max_fee_percentage = Some(ceiling);
        let response = Response::new().add_attribute("method", "instantiate".to_owned()).add_attribute(
            "contract_name",
            CONTRACT_NAME.to_owned(),
        ).add_attribute("contract_version", CONTRACT_VERSION.to_owned());
        assert(response@.attributes =~= instantiate_result(max_fee_percentage)->Ok_0.attributes);
        Ok(response)
    }

    /// Starts a swap: takes the fee out of the single attached deposit,
    /// schedules the fee transfer and the swap request, and records the swap
    /// as pending.
    ///
    /// The call fails, and leaves the contract as it was, where a swap is
    /// already in flight, where the funds are not a payment in one
    /// denomination, where the environment found the fee collector's
    /// address invalid, or where the contract is not initialized. The fee
    /// itself never fails to compute here, since the ceiling is at most 10
    /// percent.
    pub fn swap(
        &mut self,
        env: Env,
        info: MessageInfo,
        routes: Vec<SwapAmountInRoute>,
        token_out_min_amount: Coin,
        fee_percentage: Option<Decimal>,
        fee_collector: String,
        collector_validation: AddressValidation,
    ) -> (r: Result<Response, ContractError>)
        ensures
            ({
                let call = swap_call(
                    env,
                    info,
                    routes,
                    token_out_min_amount,
                    fee_percentage,
                    fee_collector,
                    collector_validation,
                );
                &&& match r {
                    Ok(response) => swap_result(old(self)@, call)
                        == Ok::<ResponseView, ErrorView>(response@),
                    Err(e) => swap_result(old(self)@, call) == Err::<ResponseView, ErrorView>(e@),
                }
                &&& final(self)@ == swap_next_state(old(self)@, call)
            }),
            old(self)@.wf(),
            final(self)@.wf(),
            !(r matches Err(e) && (e@ is Math || e@ is Overflow)),
    {
        proof {
            use_type_invariant(&*self);
        }
        let ghost call = swap_call(
            env,
            info,
            routes,
            token_out_min_amount,
            fee_percentage,
            fee_collector,
            collector_validation,
        );
        if self.active_swap.is_some() {
            return Err(ContractError::ActiveSwapExists {  });
        }
        let coin = match one_coin(&info.funds) {
            Ok(coin) => coin,
            Err(e) => {
                return Err(ContractError::Payment(e));
            },
        };
        match collector_validation {
            AddressValidation::Invalid { reason } => {
                return Err(ContractError::Std { msg: reason });
            },
            AddressValidation::Valid => {},
        }
        let ceiling = match self.max_fee_percentage {
            Some(ceiling) => ceiling,
            None => {
                return Err(
                    ContractError::Std { msg: "max fee percentage not found".to_owned() },
                );
            },
        };
        assert(ceiling.atomics <= PERCENT_SCALE);
        let split = match compute_fee(coin.amount, fee_percentage, ceiling) {
            Ok(split) => split,
            Err(e) => {
                return Err(e);
            },
        };
        assert(swap_admission(old(self)@, call) == Ok::<(CoinView, FeeSplit), ErrorView>(
            (coin@, split),
        ));
        let mut response = Response::new();
        if split.fee != 0 {
            let mut amount: Vec<Coin> = Vec::new();
            amount.push(Coin { denom: coin.denom.clone(), amount: split.fee });
            let transfer = CosmosMsg::Bank(
                BankMsg::Send { to_address: fee_collector.clone(), amount },
            );
            assert(transfer@ =~~= fee_transfer(call, coin@, split).msg);
            response = response.add_message(transfer);
        }
        let swap_msg = MsgSwapExactAmountIn {
            sender: env.contract_address,
            routes,
            token_in: Coin { denom: coin.denom.clone(), amount: split.remaining },
            token_out_min_amount: token_out_min_amount.amount,
        };
        assert(swap_msg@ =~~= swap_request(call, coin@, split));
        response = response.add_submessage(
            SubMsg::reply_always(CosmosMsg::Swap(swap_msg.clone()), SWAP_REPLY_ID),
        );
        self.active_swap = Some(
            ActiveSwap {
                original_sender: info.sender,
                fee: Coin { denom: coin.denom, amount: split.fee },
                fee_collector,
                swap_msg,
            },
        );
        let response = response.add_attribute("method", "swap".to_owned());
        assert(response@.messages =~~= swap_operations(call, coin@, split));
        assert(response@ =~~= swap_result(old(self)@, call)->Ok_0);
        assert(self@ =~~= swap_next_state(old(self)@, call));
        Ok(response)
    }

    /// Handles the completion notification of the swap in flight.
    ///
    /// The record of the swap is cleared whatever the notification says. On
    /// success the output is paid out to the caller who started the swap; on
    /// failure the call fails with the swap engine's reason. The identifier
    /// of the notification is not examined, since only one request is ever
    /// outstanding.
    pub fn reply(&mut self, msg: Reply) -> (r: Result<Response, ContractError>)
        ensures
            match r {
                Ok(response) => reply_result(old(self)@, msg.result@)
                    == Ok::<ResponseView, ErrorView>(response@),
                Err(e) => reply_result(old(self)@, msg.result@)
                    == Err::<ResponseView, ErrorView>(e@),
            },
            final(self)@ == reply_next_state(old(self)@),
            final(self)@.active_swap is None,
            final(self)@.wf(),
    {
        proof {
            use_type_invariant(&*self);
        }
        let active_swap = match &self.active_swap {
            Some(recorded) => recorded.clone(),
            None => {
                assert(self@ =~~= reply_next_state(old(self)@));
                return Err(ContractError::Unexpected {  });
            },
        };
        self.active_swap = None;
        assert(self@ =~~= reply_next_state(old(self)@));
        match msg.result {
            SubMsgResult::Failure(reason) => Err(ContractError::FailedSwap { reason }),
            SubMsgResult::Success(response) => match response.data {
                None => Err(ContractError::Std { msg: "swap reply carries no data".to_owned() }),
                Some(bytes) => match token_out_amount(&bytes) {
                    Err(e) => Err(e),
                    Ok(amount) => complete_swap(active_swap, amount),
                },
            },
        }
    }

    /// The fee ceiling that the contract was initialized with.
    pub fn get_max_fee_percentage(&self) -> (r: Result<MaxFeePercentageResponse, ContractError>)
        ensures
            match r {
                Ok(response) => max_fee_result(self@)
                    == Ok::<MaxFeePercentageResponse, ErrorView>(response),
                Err(e) => max_fee_result(self@) == Err::<MaxFeePercentageResponse, ErrorView>(e@),
            },
    {
        match self.max_fee_percentage {
            Some(ceiling) => Ok(MaxFeePercentageResponse { max_fee_percentage: ceiling }),
            None => Err(ContractError::Std { msg: "max fee percentage not found".to_owned() }),
        }
    }
}

} // verus!

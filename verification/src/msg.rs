//! The values that go in and out of the contract's operations: the swap
//! request, the operations that a call schedules, the response that carries
//! them, and the completion notification.

use vstd::prelude::*;
use crate::coin::{coins_view, Coin, CoinView};
use crate::decimal::Decimal;

verus! {

/// One hop of a swap route: the pool to trade in and the denomination to
/// trade into.
#[derive(Debug, PartialEq, Eq)]
pub struct SwapAmountInRoute {
    pub pool_id: u64,
    pub token_out_denom: String,
}

/// The mathematical content of a [`SwapAmountInRoute`].
#[verifier::ext_equal]
pub struct RouteView {
    pub pool_id: u64,
    pub token_out_denom: Seq<char>,
}

impl View for SwapAmountInRoute {
    type V = RouteView;

    open spec fn view(&self) -> RouteView {
        RouteView { pool_id: self.pool_id, token_out_denom: self.token_out_denom@ }
    }
}

impl Clone for SwapAmountInRoute {
    fn clone(&self) -> (c: SwapAmountInRoute)
        ensures
            c == *self,
    {
        SwapAmountInRoute { pool_id: self.pool_id, token_out_denom: self.token_out_denom.clone() }
    }
}

/// The views of a sequence of hops, in order.
pub open spec fn routes_view(routes: Seq<SwapAmountInRoute>) -> Seq<RouteView> {
    routes.map_values(|r: SwapAmountInRoute| r@)
}

/// The request handed to the swap engine: who swaps, along which route, what
/// goes in, and the least that must come out.
#[derive(Debug, PartialEq, Eq)]
pub struct MsgSwapExactAmountIn {
    pub sender: String,
    pub routes: Vec<SwapAmountInRoute>,
    pub token_in: Coin,
    pub token_out_min_amount: u128,
}

/// The mathematical content of a [`MsgSwapExactAmountIn`].
#[verifier::ext_equal]
pub struct SwapMsgView {
    pub sender: Seq<char>,
    pub routes: Seq<RouteView>,
    pub token_in: CoinView,
    pub token_out_min_amount: u128,
}

impl View for MsgSwapExactAmountIn {
    type V = SwapMsgView;

    open spec fn view(&self) -> SwapMsgView {
        SwapMsgView {
            sender: self.sender@,
            routes: routes_view(self.routes@),
            token_in: self.token_in@,
            token_out_min_amount: self.token_out_min_amount,
        }
    }
}

/// A copy of a route, hop by hop.
fn clone_routes(routes: &Vec<SwapAmountInRoute>) -> (copy: Vec<SwapAmountInRoute>)
    ensures
        copy@ == routes@,
{
    let mut copy: Vec<SwapAmountInRoute> = Vec::new();
    let mut i: usize = 0;
    while i < routes.len()
        invariant
            i <= routes.len(),
            copy@ == routes@.take(i as int),
        decreases routes.len() - i,
    {
        copy.push(routes[i].clone());
        assert(routes@.take(i as int).push(routes@[i as int]) == routes@.take(i + 1));
        i = i + 1;
    }
    assert(routes@.take(routes.len() as int) == routes@);
    copy
}

impl Clone for MsgSwapExactAmountIn {
    fn clone(&self) -> (c: MsgSwapExactAmountIn)
        ensures
            c@ == self@,
    {
        MsgSwapExactAmountIn {
            sender: self.sender.clone(),
            routes: clone_routes(&self.routes),
            token_in: self.token_in.clone(),
            token_out_min_amount: self.token_out_min_amount,
        }
    }
}

/// A transfer of coins out of the contract's own balance.
#[derive(Clone, Debug, PartialEq, Eq)]
pub enum BankMsg {
    Send { to_address: String, amount: Vec<Coin> },
}

/// An operation that the contract asks the environment to carry out.
#[derive(Clone, Debug, PartialEq, Eq)]
pub enum CosmosMsg {
    /// A transfer of coins.
    Bank(BankMsg),
    /// A request to the swap engine.
    Swap(MsgSwapExactAmountIn),
}

/// The mathematical content of a [`CosmosMsg`].
#[verifier::ext_equal]
pub enum CosmosMsgView {
    Send { to_address: Seq<char>, amount: Seq<CoinView> },
    Swap(SwapMsgView),
}

impl View for CosmosMsg {
    type V = CosmosMsgView;

    open spec fn view(&self) -> CosmosMsgView {
        match *self {
            CosmosMsg::Bank(BankMsg::Send { to_address, amount }) => CosmosMsgView::Send {
                to_address: to_address@,
                amount: coins_view(amount@),
            },
            CosmosMsg::Swap(msg) => CosmosMsgView::Swap(msg@),
        }
    }
}

/// When the environment notifies the contract that a scheduled operation has
/// run.
#[derive(Clone, Copy, Debug, PartialEq, Eq, Structural)]
pub enum ReplyOn {
    /// On success and on failure.
    Always,
    /// Only on failure.
    Error,
    /// Only on success.
    Success,
    /// Never: the operation is fire and forget.
    Never,
}

/// A scheduled operation, with the identifier that tags its completion
/// notification and the cases in which one is asked for.
#[derive(Clone, Debug, PartialEq, Eq)]
pub struct SubMsg {
    pub id: u64,
    pub msg: CosmosMsg,
    pub reply_on: ReplyOn,
}

/// The mathematical content of a [`SubMsg`].
#[verifier::ext_equal]
pub struct SubMsgView {
    pub id: u64,
    pub msg: CosmosMsgView,
    pub reply_on: ReplyOn,
}

impl View for SubMsg {
    type V = SubMsgView;

    open spec fn view(&self) -> SubMsgView {
        SubMsgView { id: self.id, msg: self.msg@, reply_on: self.reply_on }
    }
}

impl SubMsg {
    /// A fire-and-forget operation: no notification is asked for.
    pub fn new(msg: CosmosMsg) -> (sub: SubMsg)
        ensures
            sub.id == 0,
            sub.msg == msg,
            sub.reply_on == ReplyOn::Never,
    {
        SubMsg { id: 0, msg, reply_on: ReplyOn::Never }
    }

    /// An operation whose completion is notified under `id`, whether it
    /// succeeds or fails.
    pub fn reply_always(msg: CosmosMsg, id: u64) -> (sub: SubMsg)
        ensures
            sub.id == id,
            sub.msg == msg,
            sub.reply_on == ReplyOn::Always,
    {
        SubMsg { id, msg, reply_on: ReplyOn::Always }
    }
}

/// A key with its value, both text.
#[derive(Clone, Debug, PartialEq, Eq)]
pub struct Attribute {
    pub key: String,
    pub value: String,
}

/// The mathematical content of an [`Attribute`].
#[verifier::ext_equal]
pub struct AttributeView {
    pub key: Seq<char>,
    pub value: Seq<char>,
}

impl View for Attribute {
    type V = AttributeView;

    open spec fn view(&self) -> AttributeView {
        AttributeView { key: self.key@, value: self.value@ }
    }
}

impl Attribute {
    /// The attribute `key = value`.
    pub fn new(key: &str, value: String) -> (a: Attribute)
        ensures
            a@ == (AttributeView { key: key@, value: value@ }),
    {
        Attribute { key: key.to_owned(), value }
    }
}

/// The views of a sequence of attributes, in order.
pub open spec fn attributes_view(attributes: Seq<Attribute>) -> Seq<AttributeView> {
    attributes.map_values(|a: Attribute| a@)
}

/// A named record for observers outside the chain.
#[derive(Clone, Debug, PartialEq, Eq)]
pub struct Event {
    pub ty: String,
    pub attributes: Vec<Attribute>,
}

/// The mathematical content of an [`Event`].
#[verifier::ext_equal]
pub struct EventView {
    pub ty: Seq<char>,
    pub attributes: Seq<AttributeView>,
}

impl View for Event {
    type V = EventView;

    open spec fn view(&self) -> EventView {
        EventView { ty: self.ty@, attributes: attributes_view(self.attributes@) }
    }
}

impl Event {
    /// The event of the given type, without attributes.
    pub fn new(ty: &str) -> (e: Event)
        ensures
            e@ == (EventView { ty: ty@, attributes: Seq::empty() }),
    {
        let e = Event { ty: ty.to_owned(), attributes: Vec::new() };
        assert(e@.attributes =~= Seq::empty());
        e
    }

    /// The event with one more attribute, after those it has.
    pub fn add_attribute(self, key: &str, value: String) -> (e: Event)
        ensures
            e@ == (EventView {
                attributes: self@.attributes.push(AttributeView { key: key@, value: value@ }),
                ..self@
            }),
    {
        let mut e = self;
        e.attributes.push(Attribute::new(key, value));
        assert(e@.attributes =~= self@.attributes.push(
            AttributeView { key: key@, value: value@ },
        ));
        e
    }
}

/// What a completed swap reports in machine-readable form.
#[derive(Clone, Debug, PartialEq, Eq)]
pub struct SwapResponse {
    pub original_sender: String,
    pub fee: u128,
    pub fee_collector: String,
    pub swap_in_denom: String,
    pub swap_in_amount: u128,
    pub token_out_denom: String,
    pub token_out_amount: u128,
}

/// The mathematical content of a [`SwapResponse`].
#[verifier::ext_equal]
pub struct SwapResponseView {
    pub original_sender: Seq<char>,
    pub fee: u128,
    pub fee_collector: Seq<char>,
    pub swap_in_denom: Seq<char>,
    pub swap_in_amount: u128,
    pub token_out_denom: Seq<char>,
    pub token_out_amount: u128,
}

impl View for SwapResponse {
    type V = SwapResponseView;

    open spec fn view(&self) -> SwapResponseView {
        SwapResponseView {
            original_sender: self.original_sender@,
            fee: self.fee,
            fee_collector: self.fee_collector@,
            swap_in_denom: self.swap_in_denom@,
            swap_in_amount: self.swap_in_amount,
            token_out_denom: self.token_out_denom@,
            token_out_amount: self.token_out_amount,
        }
    }
}

/// What a successful call hands back: the operations it schedules, in order,
/// its attributes, its events and its data.
#[derive(Clone, Debug, PartialEq, Eq)]
pub struct Response {
    pub messages: Vec<SubMsg>,
    pub attributes: Vec<Attribute>,
    pub events: Vec<Event>,
    pub data: Option<SwapResponse>,
}

/// The mathematical content of a [`Response`].
#[verifier::ext_equal]
pub struct ResponseView {
    pub messages: Seq<SubMsgView>,
    pub attributes: Seq<AttributeView>,
    pub events: Seq<EventView>,
    pub data: Option<SwapResponseView>,
}

impl View for Response {
    type V = ResponseView;

    open spec fn view(&self) -> ResponseView {
        ResponseView {
            messages: self.messages@.map_values(|m: SubMsg| m@),
            attributes: attributes_view(self.attributes@),
            events: self.events@.map_values(|e: Event| e@),
            data: match self.data {
                Some(d) => Some(d@),
                None => None,
            },
        }
    }
}

impl Response {
    /// The response that schedules nothing and reports nothing.
    pub fn new() -> (r: Response)
        ensures
            r@ == (ResponseView {
                messages: Seq::empty(),
                attributes: Seq::empty(),
                events: Seq::empty(),
                data: None,
            }),
    {
        let r = Response {
            messages: Vec::new(),
            attributes: Vec::new(),
            events: Vec::new(),
            data: None,
        };
        assert(r@.messages =~= Seq::empty());
        assert(r@.attributes =~= Seq::empty());
        assert(r@.events =~= Seq::empty());
        r
    }

    /// The response with one more scheduled operation, after those it has.
    pub fn add_submessage(self, sub: SubMsg) -> (r: Response)
        ensures
            r@ == (ResponseView { messages: self@.messages.push(sub@), ..self@ }),
    {
        let mut r = self;
        r.messages.push(sub);
        assert(r@.messages =~= self@.messages.push(sub@));
        r
    }

    /// The response with one more fire-and-forget operation.
    pub fn add_message(self, msg: CosmosMsg) -> (r: Response)
        ensures
            r@ == (ResponseView {
                messages: self@.messages.push(
                    SubMsgView { id: 0, msg: msg@, reply_on: ReplyOn::Never },
                ),
                ..self@
            }),
    {
        self.add_submessage(SubMsg::new(msg))
    }

    /// The response with one more attribute, after those it has.
    pub fn add_attribute(self, key: &str, value: String) -> (r: Response)
        ensures
            r@ == (ResponseView {
                attributes: self@.attributes.push(AttributeView { key: key@, value: value@ }),
                ..self@
            }),
    {
        let mut r = self;
        r.attributes.push(Attribute::new(key, value));
        assert(r@.attributes =~= self@.attributes.push(
            AttributeView { key: key@, value: value@ },
        ));
        r
    }

    /// The response with one more event, after those it has.
    pub fn add_event(self, event: Event) -> (r: Response)
        ensures
            r@ == (ResponseView { events: self@.events.push(event@), ..self@ }),
    {
        let mut r = self;
        r.events.push(event);
        assert(r@.events =~= self@.events.push(event@));
        r
    }

    /// The response with `data` as its data.
    pub fn set_data(self, data: SwapResponse) -> (r: Response)
        ensures
            r@ == (ResponseView { data: Some(data@), ..self@ }),
    {
        let mut r = self;
        r.data = Some(data);
        r
    }
}

/// The answer to the query for the fee ceiling.
#[derive(Clone, Copy, Debug, PartialEq, Eq, Structural)]
pub struct MaxFeePercentageResponse {
    pub max_fee_percentage: Decimal,
}

/// What a scheduled operation returned on success.
#[derive(Clone, Debug, PartialEq, Eq)]
pub struct SubMsgResponse {
    pub data: Option<Vec<u8>>,
}

/// The outcome of a scheduled operation: what it returned, or why it failed.
#[derive(Clone, Debug, PartialEq, Eq)]
pub enum SubMsgResult {
    /// The operation ran; this is what it returned.
    Success(SubMsgResponse),
    /// The operation failed; this is the reason it gave.
    Failure(String),
}

/// The mathematical content of a [`SubMsgResult`].
#[verifier::ext_equal]
pub enum SubMsgResultView {
    Success { data: Option<Seq<u8>> },
    Failure { reason: Seq<char> },
}

impl View for SubMsgResult {
    type V = SubMsgResultView;

    open spec fn view(&self) -> SubMsgResultView {
        match *self {
            SubMsgResult::Success(response) => SubMsgResultView::Success {
                data: match response.data {
                    Some(bytes) => Some(bytes@),
                    None => None,
                },
            },
            SubMsgResult::Failure(reason) => SubMsgResultView::Failure { reason: reason@ },
        }
    }
}

/// A completion notification: the identifier that the operation was
/// scheduled under, and its outcome.
#[derive(Clone, Debug, PartialEq, Eq)]
pub struct Reply {
    pub id: u64,
    pub result: SubMsgResult,
}

/// What the environment says of the contract itself.
#[derive(Clone, Debug, PartialEq, Eq)]
pub struct Env {
    pub contract_address: String,
}

/// What the environment says of a call: who made it and which funds came
/// with it.
#[derive(Clone, Debug, PartialEq, Eq)]
pub struct MessageInfo {
    pub sender: String,
    pub funds: Vec<Coin>,
}

/// The verdict of the environment's address check on a fee collector.
#[derive(Clone, Debug, PartialEq, Eq)]
pub enum AddressValidation {
    /// The address is valid.
    Valid,
    /// The address is not valid; `reason` is the check's own text.
    Invalid { reason: String },
}

/// The mathematical content of an [`AddressValidation`].
#[verifier::ext_equal]
pub enum AddressValidationView {
    Valid,
    Invalid { reason: Seq<char> },
}

impl View for AddressValidation {
    type V = AddressValidationView;

    open spec fn view(&self) -> AddressValidationView {
        match *self {
            AddressValidation::Valid => AddressValidationView::Valid,
            AddressValidation::Invalid { reason } => AddressValidationView::Invalid {
                reason: reason@,
            },
        }
    }
}

} // verus!

//! The place-order request and its response, as typed values.
//!
//! Field names follow the exchange's wire names wherever the two coincide.
//! Prices and sizes are strings: the exchange defines them as decimal text,
//! and no numeric type stands in for them anywhere in this crate.
//!
//! Every type has a view, a value of the same shape with `Seq<char>` for
//! `String` and `Seq` for `Vec`. The contracts of the wire encoding are
//! written over these views.
use vstd::prelude::*;

verus! {

/// The view of an optional value.
pub open spec fn view_of<T: View>(value: Option<T>) -> Option<T::V> {
    match value {
        Some(inner) => Some(inner@),
        None => None,
    }
}

/// Time in force of a limit order.
#[derive(Debug, Clone, PartialEq, Eq)]
pub struct LimitOrder {
    /// `Gtc` (good till cancel), `Ioc` (immediate or cancel) or `Alo` (add
    /// liquidity only).
    pub tif: String,
}

/// The view of [`LimitOrder`].
pub struct LimitOrderView {
    pub tif: Seq<char>,
}

impl View for LimitOrder {
    type V = LimitOrderView;

    open spec fn view(&self) -> LimitOrderView {
        LimitOrderView { tif: self.tif@ }
    }
}

/// The trigger of a trigger order.
#[allow(non_snake_case)]
#[derive(Debug, Clone, PartialEq, Eq)]
pub struct TriggerOrder {
    /// Whether the order executes at market once triggered.
    pub isMarket: bool,
    /// The trigger price, as decimal text.
    pub triggerPx: String,
    /// `tp` (take profit) or `sl` (stop loss), where the order carries the tag.
    pub tpsl: Option<String>,
}

/// The view of [`TriggerOrder`].
#[allow(non_snake_case)]
pub struct TriggerOrderView {
    pub isMarket: bool,
    pub triggerPx: Seq<char>,
    pub tpsl: Option<Seq<char>>,
}

impl View for TriggerOrder {
    type V = TriggerOrderView;

    open spec fn view(&self) -> TriggerOrderView {
        TriggerOrderView {
            isMarket: self.isMarket,
            triggerPx: self.triggerPx@,
            tpsl: view_of(self.tpsl),
        }
    }
}

/// The kind of an order: exactly one of limit and trigger.
#[derive(Debug, Clone, PartialEq, Eq)]
pub enum OrderType {
    Limit { limit: LimitOrder },
    Trigger { trigger: TriggerOrder },
}

/// The view of [`OrderType`].
pub enum OrderTypeView {
    Limit { limit: LimitOrderView },
    Trigger { trigger: TriggerOrderView },
}

impl View for OrderType {
    type V = OrderTypeView;

    open spec fn view(&self) -> OrderTypeView {
        match self {
            OrderType::Limit { limit } => OrderTypeView::Limit { limit: limit@ },
            OrderType::Trigger { trigger } => OrderTypeView::Trigger { trigger: trigger@ },
        }
    }
}

/// One order instruction.
#[derive(Debug, Clone, PartialEq, Eq)]
pub struct Order {
    /// Asset index: the catalog index for a perpetual, 10000 plus the catalog
    /// index for a spot asset.
    pub a: u32,
    /// `true` to buy, `false` to sell.
    pub b: bool,
    /// Limit price, as decimal text.
    pub p: String,
    /// Size, as decimal text.
    pub s: String,
    /// Reduce only: the order may only decrease a position.
    pub r: bool,
    /// Limit or trigger.
    pub t: OrderType,
    /// Client order id, 128 bits as hexadecimal text, where the caller sets one.
    pub c: Option<String>,
}

/// The view of [`Order`].
pub struct OrderView {
    pub a: u32,
    pub b: bool,
    pub p: Seq<char>,
    pub s: Seq<char>,
    pub r: bool,
    pub t: OrderTypeView,
    pub c: Option<Seq<char>>,
}

impl View for Order {
    type V = OrderView;

    open spec fn view(&self) -> OrderView {
        OrderView {
            a: self.a,
            b: self.b,
            p: self.p@,
            s: self.s@,
            r: self.r,
            t: self.t@,
            c: view_of(self.c),
        }
    }
}

/// The recipient of a builder fee.
#[derive(Debug, Clone, PartialEq, Eq)]
pub struct Builder {
    /// The address that receives the fee.
    pub b: String,
    /// The fee, in tenths of a basis point of the order's notional.
    pub f: u32,
}

/// The view of [`Builder`].
pub struct BuilderView {
    pub b: Seq<char>,
    pub f: u32,
}

impl View for Builder {
    type V = BuilderView;

    open spec fn view(&self) -> BuilderView {
        BuilderView { b: self.b@, f: self.f }
    }
}

/// One batch of orders.
#[derive(Debug, Clone, PartialEq, Eq)]
pub struct Action {
    /// The kind of action, `order` for placing orders. Its wire name is `type`.
    pub action_type: String,
    /// The orders, in the order in which the exchange answers them.
    pub orders: Vec<Order>,
    /// Grouping policy: `na`, `normalTpsl` or `positionTpsl`.
    pub grouping: Option<String>,
    /// Builder fee, where one is paid.
    pub builder: Option<Builder>,
}

/// The view of [`Action`].
pub struct ActionView {
    pub action_type: Seq<char>,
    pub orders: Seq<OrderView>,
    pub grouping: Option<Seq<char>>,
    pub builder: Option<BuilderView>,
}

impl View for Action {
    type V = ActionView;

    open spec fn view(&self) -> ActionView {
        ActionView {
            action_type: self.action_type@,
            orders: self.orders@.map_values(|o: Order| o@),
            grouping: view_of(self.grouping),
            builder: view_of(self.builder),
        }
    }
}

/// A place-order request. Nothing in it is validated here: producing a
/// correct signature over action and nonce is the caller's part.
#[allow(non_snake_case)]
#[derive(Debug, Clone, PartialEq, Eq)]
pub struct PlaceOrderRequest {
    pub action: Action,
    /// Anti-replay value, strictly increasing per account; the current time
    /// in milliseconds is the usual choice.
    pub nonce: u64,
    /// Signature over action and nonce, opaque to this crate.
    pub signature: String,
    /// The vault traded for, where the request is made on behalf of one.
    pub vaultAddress: Option<String>,
}

/// The view of [`PlaceOrderRequest`].
#[allow(non_snake_case)]
pub struct PlaceOrderRequestView {
    pub action: ActionView,
    pub nonce: u64,
    pub signature: Seq<char>,
    pub vaultAddress: Option<Seq<char>>,
}

impl View for PlaceOrderRequest {
    type V = PlaceOrderRequestView;

    open spec fn view(&self) -> PlaceOrderRequestView {
        PlaceOrderRequestView {
            action: self.action@,
            nonce: self.nonce,
            signature: self.signature@,
            vaultAddress: view_of(self.vaultAddress),
        }
    }
}

/// The order id of an order that rests on the book.
#[derive(Debug, Clone, PartialEq, Eq)]
pub struct RestingData {
    pub oid: u64,
}

/// The view of [`RestingData`].
pub struct RestingDataView {
    pub oid: u64,
}

impl View for RestingData {
    type V = RestingDataView;

    open spec fn view(&self) -> RestingDataView {
        RestingDataView { oid: self.oid }
    }
}

/// The exchange's answer to one order: accepted and resting, or rejected
/// with a message.
#[derive(Debug, Clone, PartialEq, Eq)]
pub enum ResponseStatus {
    Resting { resting: RestingData },
    Error { error: String },
}

/// The view of [`ResponseStatus`].
pub enum ResponseStatusView {
    Resting { resting: RestingDataView },
    Error { error: Seq<char> },
}

impl View for ResponseStatus {
    type V = ResponseStatusView;

    open spec fn view(&self) -> ResponseStatusView {
        match self {
            ResponseStatus::Resting { resting } => ResponseStatusView::Resting {
                resting: resting@,
            },
            ResponseStatus::Error { error } => ResponseStatusView::Error { error: error@ },
        }
    }
}

/// The answers to the orders of a request, one for each, in request order.
#[derive(Debug, Clone, PartialEq, Eq)]
pub struct ResponseStatuses {
    pub statuses: Vec<ResponseStatus>,
}

/// The view of [`ResponseStatuses`].
pub struct ResponseStatusesView {
    pub statuses: Seq<ResponseStatusView>,
}

impl View for ResponseStatuses {
    type V = ResponseStatusesView;

    open spec fn view(&self) -> ResponseStatusesView {
        ResponseStatusesView { statuses: self.statuses@.map_values(|s: ResponseStatus| s@) }
    }
}

/// The payload of a response.
#[derive(Debug, Clone, PartialEq, Eq)]
pub struct ResponseData {
    /// The kind of response, `order` for placed orders. Its wire name is
    /// `type`.
    pub response_type: String,
    pub data: Option<ResponseStatuses>,
}

/// The view of [`ResponseData`].
pub struct ResponseDataView {
    pub response_type: Seq<char>,
    pub data: Option<ResponseStatusesView>,
}

impl View for ResponseData {
    type V = ResponseDataView;

    open spec fn view(&self) -> ResponseDataView {
        ResponseDataView { response_type: self.response_type@, data: view_of(self.data) }
    }
}

/// The exchange's response to a place-order request.
#[derive(Debug, Clone, PartialEq, Eq)]
pub struct PlaceOrderResponse {
    /// `ok` where the request was taken; anything else reports an error.
    pub status: String,
    pub response: Option<ResponseData>,
}

/// The view of [`PlaceOrderResponse`].
pub struct PlaceOrderResponseView {
    pub status: Seq<char>,
    pub response: Option<ResponseDataView>,
}

impl View for PlaceOrderResponse {
    type V = PlaceOrderResponseView;

    open spec fn view(&self) -> PlaceOrderResponseView {
        PlaceOrderResponseView { status: self.status@, response: view_of(self.response) }
    }
}

} // verus!

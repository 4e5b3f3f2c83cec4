//! The wire decoding of a place-order response, and of the kind of an order.
//!
//! Each type has a spec function `from_json` on its view, which says which
//! value a JSON document stands for, if any, and an executable `from_json`
//! that computes it. The rules are those of the exchange's schema: a value
//! is read from an object by the names of its members; members that the
//! type does not know are passed over; an optional field may be absent or
//! `null`; where a type is one of several kinds, the kinds are tried in the
//! order of their declaration and the first that fits is taken.
use crate::json::{
    as_bool, as_items, as_text, as_unsigned, error_detail, item_trees, member, present_member,
    read_text, text_json, value_tree, JsonValue,
};
use crate::models::{
    view_of, LimitOrder, LimitOrderView, OrderType, OrderTypeView, PlaceOrderResponse,
    PlaceOrderResponseView, ResponseData, ResponseDataView, ResponseStatus, ResponseStatusView,
    ResponseStatuses, ResponseStatusesView, RestingData, RestingDataView, TriggerOrder,
    TriggerOrderView,
};
use vstd::prelude::*;

verus! {

impl RestingDataView {
    /// An object whose member `oid` is an unsigned 64-bit integer.
    pub open spec fn from_json(doc: JsonValue) -> Option<RestingDataView> {
        match doc.get("oid"@) {
            Some(JsonValue::Number(oid)) => Some(RestingDataView { oid }),
            _ => None,
        }
    }
}

impl ResponseStatusView {
    /// The document read as a resting order: an object whose member
    /// `resting` is a [`RestingDataView`].
    pub open spec fn resting_from_json(doc: JsonValue) -> Option<ResponseStatusView> {
        match doc.get("resting"@) {
            Some(inner) => match RestingDataView::from_json(inner) {
                Some(resting) => Some(ResponseStatusView::Resting { resting }),
                None => None,
            },
            None => None,
        }
    }

    /// The document read as a rejection: an object whose member `error` is
    /// a string.
    pub open spec fn error_from_json(doc: JsonValue) -> Option<ResponseStatusView> {
        match doc.get("error"@) {
            Some(JsonValue::Str(error)) => Some(ResponseStatusView::Error { error }),
            _ => None,
        }
    }

    /// A resting order where the document can be read as one, else a
    /// rejection where it can be read as one.
    pub open spec fn from_json(doc: JsonValue) -> Option<ResponseStatusView> {
        match ResponseStatusView::resting_from_json(doc) {
            Some(status) => Some(status),
            None => ResponseStatusView::error_from_json(doc),
        }
    }
}

/// The statuses that a sequence of documents stands for: all of them, in
/// order, or nothing if one of the documents is no status.
pub open spec fn statuses_from_json(items: Seq<JsonValue>) -> Option<Seq<ResponseStatusView>> {
    if forall|i: int| 0 <= i < items.len() ==> ResponseStatusView::from_json(#[trigger] items[i]) is Some {
        Some(Seq::new(items.len(), |i: int| ResponseStatusView::from_json(items[i])->0))
    } else {
        None
    }
}

impl ResponseStatusesView {
    /// An object whose member `statuses` is an array of statuses.
    pub open spec fn from_json(doc: JsonValue) -> Option<ResponseStatusesView> {
        match doc.get("statuses"@) {
            Some(JsonValue::Array(items)) => match statuses_from_json(items) {
                Some(statuses) => Some(ResponseStatusesView { statuses }),
                None => None,
            },
            _ => None,
        }
    }
}

impl ResponseDataView {
    /// An object whose member `type` is a string and whose member `data`,
    /// where it is there and not `null`, is a [`ResponseStatusesView`].
    pub open spec fn from_json(doc: JsonValue) -> Option<ResponseDataView> {
        match doc.get("type"@) {
            Some(JsonValue::Str(response_type)) => match doc.present("data"@) {
                Some(inner) => match ResponseStatusesView::from_json(inner) {
                    Some(data) => Some(ResponseDataView { response_type, data: Some(data) }),
                    None => None,
                },
                None => Some(ResponseDataView { response_type, data: None }),
            },
            _ => None,
        }
    }
}

impl PlaceOrderResponseView {
    /// An object whose member `status` is a string and whose member
    /// `response`, where it is there and not `null`, is a
    /// [`ResponseDataView`].
    pub open spec fn from_json(doc: JsonValue) -> Option<PlaceOrderResponseView> {
        match doc.get("status"@) {
            Some(JsonValue::Str(status)) => match doc.present("response"@) {
                Some(inner) => match ResponseDataView::from_json(inner) {
                    Some(response) => Some(
                        PlaceOrderResponseView { status, response: Some(response) },
                    ),
                    None => None,
                },
                None => Some(PlaceOrderResponseView { status, response: None }),
            },
            _ => None,
        }
    }

    /// The response that a JSON text stands for: the text has to be JSON,
    /// and its document a response.
    pub open spec fn from_json_text(text: Seq<char>) -> Result<PlaceOrderResponseView, DecodeFault> {
        match text_json(text) {
            Some(doc) => match PlaceOrderResponseView::from_json(doc) {
                Some(response) => Ok(response),
                None => Err(DecodeFault::Shape),
            },
            None => Err(DecodeFault::Syntax),
        }
    }
}

impl LimitOrderView {
    /// An object whose member `tif` is a string.
    pub open spec fn from_json(doc: JsonValue) -> Option<LimitOrderView> {
        match doc.get("tif"@) {
            Some(JsonValue::Str(tif)) => Some(LimitOrderView { tif }),
            _ => None,
        }
    }
}

impl TriggerOrderView {
    /// An object whose member `isMarket` is a boolean, whose member
    /// `triggerPx` is a string, and whose member `tpsl`, where it is there
    /// and not `null`, is a string.
    pub open spec fn from_json(doc: JsonValue) -> Option<TriggerOrderView> {
        match (doc.get("isMarket"@), doc.get("triggerPx"@)) {
            (Some(JsonValue::Bool(isMarket)), Some(JsonValue::Str(triggerPx))) => match doc.present(
                "tpsl"@,
            ) {
                Some(JsonValue::Str(tag)) => Some(
                    TriggerOrderView { isMarket, triggerPx, tpsl: Some(tag) },
                ),
                Some(_) => None,
                None => Some(TriggerOrderView { isMarket, triggerPx, tpsl: None }),
            },
            _ => None,
        }
    }
}

impl OrderTypeView {
    /// The document read as a limit order: an object whose member `limit`
    /// is a [`LimitOrderView`].
    pub open spec fn limit_from_json(doc: JsonValue) -> Option<OrderTypeView> {
        match doc.get("limit"@) {
            Some(inner) => match LimitOrderView::from_json(inner) {
                Some(limit) => Some(OrderTypeView::Limit { limit }),
                None => None,
            },
            None => None,
        }
    }

    /// The document read as a trigger order: an object whose member
    /// `trigger` is a [`TriggerOrderView`].
    pub open spec fn trigger_from_json(doc: JsonValue) -> Option<OrderTypeView> {
        match doc.get("trigger"@) {
            Some(inner) => match TriggerOrderView::from_json(inner) {
                Some(trigger) => Some(OrderTypeView::Trigger { trigger }),
                None => None,
            },
            None => None,
        }
    }

    /// A limit order where the document can be read as one, else a trigger
    /// order where it can be read as one.
    pub open spec fn from_json(doc: JsonValue) -> Option<OrderTypeView> {
        match OrderTypeView::limit_from_json(doc) {
            Some(kind) => Some(kind),
            None => OrderTypeView::trigger_from_json(doc),
        }
    }
}

/// The view of [`DecodeError`]: why a text is no response, without the
/// wording of the JSON library.
pub enum DecodeFault {
    Syntax,
    Shape,
}

/// Why a text could not be read as a response.
#[derive(Debug, Clone, PartialEq, Eq)]
pub enum DecodeError {
    /// The text is not JSON. `detail` is the JSON library's message.
    Syntax { detail: String },
    /// The text is JSON, but the document is no response: a member that has
    /// to be there is missing, or a member is of the wrong kind.
    Shape,
}

impl View for DecodeError {
    type V = DecodeFault;

    open spec fn view(&self) -> DecodeFault {
        match self {
            DecodeError::Syntax { .. } => DecodeFault::Syntax,
            DecodeError::Shape => DecodeFault::Shape,
        }
    }
}

/// The view of a decoding result.
pub open spec fn decoded_view(outcome: Result<PlaceOrderResponse, DecodeError>) -> Result<
    PlaceOrderResponseView,
    DecodeFault,
> {
    match outcome {
        Ok(response) => Ok(response@),
        Err(error) => Err(error@),
    }
}

impl RestingData {
    /// Reads the order id of a resting order from its document.
    pub fn from_json(value: &serde_json::Value) -> (decoded: Option<RestingData>)
        ensures
            view_of(decoded) == RestingDataView::from_json(value_tree(*value)),
    {
        match member(value, "oid") {
            Some(inner) => match as_unsigned(&inner) {
                Some(oid) => Some(RestingData { oid }),
                None => None,
            },
            None => None,
        }
    }
}

impl ResponseStatus {
    /// Reads the answer to one order from its document: as a resting order
    /// first, as a rejection second.
    pub fn from_json(value: &serde_json::Value) -> (decoded: Option<ResponseStatus>)
        ensures
            view_of(decoded) == ResponseStatusView::from_json(value_tree(*value)),
    {
        if let Some(inner) = member(value, "resting") {
            if let Some(resting) = RestingData::from_json(&inner) {
                return Some(ResponseStatus::Resting { resting });
            }
        }
        match member(value, "error") {
            Some(inner) => match as_text(&inner) {
                Some(error) => Some(ResponseStatus::Error { error }),
                None => None,
            },
            None => None,
        }
    }
}

impl ResponseStatuses {
    /// Reads the answers to the orders of a request from their document.
    /// One answer that cannot be read fails them all.
    pub fn from_json(value: &serde_json::Value) -> (decoded: Option<ResponseStatuses>)
        ensures
            view_of(decoded) == ResponseStatusesView::from_json(value_tree(*value)),
    {
        let items = match member(value, "statuses") {
            Some(inner) => match as_items(&inner) {
                Some(items) => items,
                None => {
                    return None;
                },
            },
            None => {
                return None;
            },
        };
        let ghost docs = item_trees(items@);
        let mut statuses: Vec<ResponseStatus> = Vec::new();
        let mut i: usize = 0;
        while i < items.len()
            invariant
                i <= items.len(),
                statuses.len() == i,
                docs == item_trees(items@),
                value_tree(*value).get("statuses"@) == Some(JsonValue::Array(docs)),
                forall|k: int|
                    0 <= k < i ==> ResponseStatusView::from_json(#[trigger] docs[k]) == Some(
                        statuses@[k]@,
                    ),
            decreases items.len() - i,
        {
            match ResponseStatus::from_json(&items[i]) {
                Some(status) => {
                    statuses.push(status);
                },
                None => {
                    assert(ResponseStatusView::from_json(docs[i as int]) is None);
                    return None;
                },
            }
            i += 1;
        }
        let decoded = ResponseStatuses { statuses };
        assert(decoded@.statuses =~= statuses_from_json(docs)->0);
        Some(decoded)
    }
}

impl ResponseData {
    /// Reads the payload of a response from its document.
    pub fn from_json(value: &serde_json::Value) -> (decoded: Option<ResponseData>)
        ensures
            view_of(decoded) == ResponseDataView::from_json(value_tree(*value)),
    {
        let response_type = match member(value, "type") {
            Some(inner) => match as_text(&inner) {
                Some(text) => text,
                None => {
                    return None;
                },
            },
            None => {
                return None;
            },
        };
        match present_member(value, "data") {
            Some(inner) => match ResponseStatuses::from_json(&inner) {
                Some(data) => Some(ResponseData { response_type, data: Some(data) }),
                None => None,
            },
            None => Some(ResponseData { response_type, data: None }),
        }
    }
}

impl PlaceOrderResponse {
    /// Reads a response from its document.
    pub fn from_json(value: &serde_json::Value) -> (decoded: Option<PlaceOrderResponse>)
        ensures
            view_of(decoded) == PlaceOrderResponseView::from_json(value_tree(*value)),
    {
        let status = match member(value, "status") {
            Some(inner) => match as_text(&inner) {
                Some(text) => text,
                None => {
                    return None;
                },
            },
            None => {
                return None;
            },
        };
        match present_member(value, "response") {
            Some(inner) => match ResponseData::from_json(&inner) {
                Some(response) => Some(PlaceOrderResponse { status, response: Some(response) }),
                None => None,
            },
            None => Some(PlaceOrderResponse { status, response: None }),
        }
    }

    /// Reads a response from JSON text, the body of the HTTP response.
    pub fn from_json_text(text: &str) -> (outcome: Result<PlaceOrderResponse, DecodeError>)
        ensures
            decoded_view(outcome) == PlaceOrderResponseView::from_json_text(text@),
    {
        match read_text(text) {
            Ok(value) => match PlaceOrderResponse::from_json(&value) {
                Some(response) => Ok(response),
                None => Err(DecodeError::Shape),
            },
            Err(error) => Err(DecodeError::Syntax { detail: error_detail(&error) }),
        }
    }
}

impl LimitOrder {
    /// Reads the time in force of a limit order from its document.
    pub fn from_json(value: &serde_json::Value) -> (decoded: Option<LimitOrder>)
        ensures
            view_of(decoded) == LimitOrderView::from_json(value_tree(*value)),
    {
        match member(value, "tif") {
            Some(inner) => match as_text(&inner) {
                Some(tif) => Some(LimitOrder { tif }),
                None => None,
            },
            None => None,
        }
    }
}

impl TriggerOrder {
    /// Reads a trigger from its document.
    pub fn from_json(value: &serde_json::Value) -> (decoded: Option<TriggerOrder>)
        ensures
            view_of(decoded) == TriggerOrderView::from_json(value_tree(*value)),
    {
        let is_market = match member(value, "isMarket") {
            Some(inner) => match as_bool(&inner) {
                Some(flag) => flag,
                None => {
                    return None;
                },
            },
            None => {
                return None;
            },
        };
        let trigger_px = match member(value, "triggerPx") {
            Some(inner) => match as_text(&inner) {
                Some(text) => text,
                None => {
                    return None;
                },
            },
            None => {
                return None;
            },
        };
        match present_member(value, "tpsl") {
            Some(inner) => match as_text(&inner) {
                Some(tag) => Some(
                    TriggerOrder { isMarket: is_market, triggerPx: trigger_px, tpsl: Some(tag) },
                ),
                None => None,
            },
            None => Some(TriggerOrder { isMarket: is_market, triggerPx: trigger_px, tpsl: None }),
        }
    }
}

impl OrderType {
    /// Reads the kind of an order from its document: as a limit order
    /// first, as a trigger order second.
    pub fn from_json(value: &serde_json::Value) -> (decoded: Option<OrderType>)
        ensures
            view_of(decoded) == OrderTypeView::from_json(value_tree(*value)),
    {
        if let Some(inner) = member(value, "limit") {
            if let Some(limit) = LimitOrder::from_json(&inner) {
                return Some(OrderType::Limit { limit });
            }
        }
        match member(value, "trigger") {
            Some(inner) => match TriggerOrder::from_json(&inner) {
                Some(trigger) => Some(OrderType::Trigger { trigger }),
                None => None,
            },
            None => None,
        }
    }
}

} // verus!

//! The wire encoding of a place-order request.
//!
//! Each type of the request has a spec function `to_json` on its view, which
//! says which JSON document stands for a value, and an executable `to_json`
//! that builds that document. The rules of the encoding are all in the spec
//! functions: an optional field that is absent has no member at all, the
//! action's kind goes under the name `type`, the kind of an order is told by
//! which member is there, and prices and sizes are JSON strings.
use crate::json::{
    array_value, bool_value, item_trees, json_text, member_trees, object_value, text_value,
    unsigned_value, value_tree, write_text, JsonValue,
};
use crate::models::{
    Action, ActionView, Builder, BuilderView, LimitOrder, LimitOrderView, Order, OrderType,
    OrderTypeView, OrderView, PlaceOrderRequest, PlaceOrderRequestView, TriggerOrder,
    TriggerOrderView,
};
use vstd::prelude::*;

verus! {

/// The member for an optional text: one member where there is a text, none
/// where there is not.
pub open spec fn optional_text(key: Seq<char>, value: Option<Seq<char>>) -> Seq<
    (Seq<char>, JsonValue),
> {
    match value {
        Some(text) => seq![(key, JsonValue::Str(text))],
        None => Seq::empty(),
    }
}

impl LimitOrderView {
    /// `{"tif": ..}`
    pub open spec fn to_json(self) -> JsonValue {
        JsonValue::Object(seq![("tif"@, JsonValue::Str(self.tif))])
    }
}

impl TriggerOrderView {
    /// `{"isMarket": .., "triggerPx": .., "tpsl": ..}`, without `tpsl` where
    /// the order has no such tag.
    pub open spec fn to_json(self) -> JsonValue {
        JsonValue::Object(
            seq![
                ("isMarket"@, JsonValue::Bool(self.isMarket)),
                ("triggerPx"@, JsonValue::Str(self.triggerPx)),
            ] + optional_text("tpsl"@, self.tpsl),
        )
    }
}

impl OrderTypeView {
    /// `{"limit": ..}` or `{"trigger": ..}`: no tag says which, the member
    /// that is there does.
    pub open spec fn to_json(self) -> JsonValue {
        match self {
            OrderTypeView::Limit { limit } => JsonValue::Object(seq![("limit"@, limit.to_json())]),
            OrderTypeView::Trigger { trigger } => JsonValue::Object(
                seq![("trigger"@, trigger.to_json())],
            ),
        }
    }
}

impl OrderView {
    /// `{"a": .., "b": .., "p": .., "s": .., "r": .., "t": .., "c": ..}`,
    /// without `c` where the order has no client order id. Price and size
    /// are JSON strings, holding the text of the order unchanged.
    pub open spec fn to_json(self) -> JsonValue {
        JsonValue::Object(
            seq![
                ("a"@, JsonValue::Number(self.a as u64)),
                ("b"@, JsonValue::Bool(self.b)),
                ("p"@, JsonValue::Str(self.p)),
                ("s"@, JsonValue::Str(self.s)),
                ("r"@, JsonValue::Bool(self.r)),
                ("t"@, self.t.to_json()),
            ] + optional_text("c"@, self.c),
        )
    }
}

impl BuilderView {
    /// `{"b": .., "f": ..}`
    pub open spec fn to_json(self) -> JsonValue {
        JsonValue::Object(
            seq![("b"@, JsonValue::Str(self.b)), ("f"@, JsonValue::Number(self.f as u64))],
        )
    }
}

/// The documents of a sequence of orders, in their order.
pub open spec fn orders_json(orders: Seq<OrderView>) -> Seq<JsonValue> {
    Seq::new(orders.len(), |i: int| orders[i].to_json())
}

/// The member for an optional builder.
pub open spec fn optional_builder(key: Seq<char>, value: Option<BuilderView>) -> Seq<
    (Seq<char>, JsonValue),
> {
    match value {
        Some(builder) => seq![(key, builder.to_json())],
        None => Seq::empty(),
    }
}

impl ActionView {
    /// `{"type": .., "orders": [..], "grouping": .., "builder": ..}`, without
    /// `grouping` and without `builder` where the action has none. The kind
    /// of the action stands under the name `type`.
    pub open spec fn to_json(self) -> JsonValue {
        JsonValue::Object(
            seq![
                ("type"@, JsonValue::Str(self.action_type)),
                ("orders"@, JsonValue::Array(orders_json(self.orders))),
            ] + optional_text("grouping"@, self.grouping) + optional_builder(
                "builder"@,
                self.builder,
            ),
        )
    }
}

impl PlaceOrderRequestView {
    /// `{"action": .., "nonce": .., "signature": .., "vaultAddress": ..}`,
    /// without `vaultAddress` where the request names no vault.
    pub open spec fn to_json(self) -> JsonValue {
        JsonValue::Object(
            seq![
                ("action"@, self.action.to_json()),
                ("nonce"@, JsonValue::Number(self.nonce)),
                ("signature"@, JsonValue::Str(self.signature)),
            ] + optional_text("vaultAddress"@, self.vaultAddress),
        )
    }

    /// The JSON text of the request, as the JSON library writes its document.
    pub open spec fn to_json_text(self) -> Seq<char> {
        json_text(self.to_json())
    }
}

impl LimitOrder {
    /// The document of the time in force of a limit order.
    pub fn to_json(&self) -> (value: serde_json::Value)
        ensures
            value_tree(value) == self@.to_json(),
    {
        let mut members: Vec<(String, serde_json::Value)> = Vec::new();
        members.push((String::from_str("tif"), text_value(self.tif.as_str())));
        assert(member_trees(members@) =~= seq![("tif"@, JsonValue::Str(self.tif@))]);
        object_value(members)
    }
}

impl TriggerOrder {
    /// The document of a trigger.
    pub fn to_json(&self) -> (value: serde_json::Value)
        ensures
            value_tree(value) == self@.to_json(),
    {
        let mut members: Vec<(String, serde_json::Value)> = Vec::new();
        members.push((String::from_str("isMarket"), bool_value(self.isMarket)));
        members.push((String::from_str("triggerPx"), text_value(self.triggerPx.as_str())));
        match &self.tpsl {
            Some(tag) => {
                members.push((String::from_str("tpsl"), text_value(tag.as_str())));
            },
            None => {},
        }
        proof {
            reveal_strlit("isMarket");
            reveal_strlit("triggerPx");
            reveal_strlit("tpsl");
            assert(member_trees(members@) =~= self@.to_json()->Object_0);
            assert(members@[0].0@.len() == 8 && members@[1].0@.len() == 9);
            assert(members@.len() == 3 ==> members@[2].0@.len() == 4);
        }
        object_value(members)
    }
}

impl OrderType {
    /// The document of the kind of an order.
    pub fn to_json(&self) -> (value: serde_json::Value)
        ensures
            value_tree(value) == self@.to_json(),
    {
        let mut members: Vec<(String, serde_json::Value)> = Vec::new();
        match self {
            OrderType::Limit { limit } => {
                members.push((String::from_str("limit"), limit.to_json()));
            },
            OrderType::Trigger { trigger } => {
                members.push((String::from_str("trigger"), trigger.to_json()));
            },
        }
        assert(member_trees(members@) =~= self@.to_json()->Object_0);
        object_value(members)
    }
}

impl Order {
    /// The document of an order.
    pub fn to_json(&self) -> (value: serde_json::Value)
        ensures
            value_tree(value) == self@.to_json(),
    {
        let mut members: Vec<(String, serde_json::Value)> = Vec::new();
        members.push((String::from_str("a"), unsigned_value(self.a as u64)));
        members.push((String::from_str("b"), bool_value(self.b)));
        members.push((String::from_str("p"), text_value(self.p.as_str())));
        members.push((String::from_str("s"), text_value(self.s.as_str())));
        members.push((String::from_str("r"), bool_value(self.r)));
        members.push((String::from_str("t"), self.t.to_json()));
        match &self.c {
            Some(id) => {
                members.push((String::from_str("c"), text_value(id.as_str())));
            },
            None => {},
        }
        proof {
            reveal_strlit("a");
            reveal_strlit("b");
            reveal_strlit("p");
            reveal_strlit("s");
            reveal_strlit("r");
            reveal_strlit("t");
            reveal_strlit("c");
            assert(member_trees(members@) =~= self@.to_json()->Object_0);
            assert(members@[0].0@[0] == 'a' && members@[1].0@[0] == 'b' && members@[2].0@[0]
                == 'p');
            assert(members@[3].0@[0] == 's' && members@[4].0@[0] == 'r' && members@[5].0@[0]
                == 't');
            assert(members@.len() == 7 ==> members@[6].0@[0] == 'c');
        }
        object_value(members)
    }
}

impl Builder {
    /// The document of a builder fee.
    pub fn to_json(&self) -> (value: serde_json::Value)
        ensures
            value_tree(value) == self@.to_json(),
    {
        let mut members: Vec<(String, serde_json::Value)> = Vec::new();
        members.push((String::from_str("b"), text_value(self.b.as_str())));
        members.push((String::from_str("f"), unsigned_value(self.f as u64)));
        proof {
            reveal_strlit("b");
            reveal_strlit("f");
            assert(member_trees(members@) =~= self@.to_json()->Object_0);
            assert(members@[0].0@[0] == 'b' && members@[1].0@[0] == 'f');
        }
        object_value(members)
    }
}

impl Action {
    /// The document of an action, with its orders in their order.
    pub fn to_json(&self) -> (value: serde_json::Value)
        ensures
            value_tree(value) == self@.to_json(),
    {
        let mut items: Vec<serde_json::Value> = Vec::new();
        let mut i: usize = 0;
        while i < self.orders.len()
            invariant
                i <= self.orders.len(),
                items.len() == i,
                forall|k: int| 0 <= k < i ==> value_tree(#[trigger] items@[k]) == self.orders@[k]@.to_json(),
            decreases self.orders.len() - i,
        {
            items.push(self.orders[i].to_json());
            i += 1;
        }
        assert(item_trees(items@) =~= orders_json(self@.orders));
        let mut members: Vec<(String, serde_json::Value)> = Vec::new();
        members.push((String::from_str("type"), text_value(self.action_type.as_str())));
        members.push((String::from_str("orders"), array_value(items)));
        match &self.grouping {
            Some(policy) => {
                members.push((String::from_str("grouping"), text_value(policy.as_str())));
            },
            None => {},
        }
        match &self.builder {
            Some(builder) => {
                members.push((String::from_str("builder"), builder.to_json()));
            },
            None => {},
        }
        proof {
            reveal_strlit("type");
            reveal_strlit("orders");
            reveal_strlit("grouping");
            reveal_strlit("builder");
            assert(member_trees(members@) =~= self@.to_json()->Object_0);
            assert(members@[0].0@.len() == 4 && members@[1].0@.len() == 6);
            assert(forall|k: int|
                2 <= k < members@.len() ==> (#[trigger] members@[k]).0@ == "grouping"@
                    || members@[k].0@ == "builder"@);
        }
        object_value(members)
    }
}

impl PlaceOrderRequest {
    /// The document of a request.
    pub fn to_json(&self) -> (value: serde_json::Value)
        ensures
            value_tree(value) == self@.to_json(),
    {
        let mut members: Vec<(String, serde_json::Value)> = Vec::new();
        members.push((String::from_str("action"), self.action.to_json()));
        members.push((String::from_str("nonce"), unsigned_value(self.nonce)));
        members.push((String::from_str("signature"), text_value(self.signature.as_str())));
        match &self.vaultAddress {
            Some(vault) => {
                members.push((String::from_str("vaultAddress"), text_value(vault.as_str())));
            },
            None => {},
        }
        proof {
            reveal_strlit("action");
            reveal_strlit("nonce");
            reveal_strlit("signature");
            reveal_strlit("vaultAddress");
            assert(member_trees(members@) =~= self@.to_json()->Object_0);
            assert(members@[0].0@.len() == 6 && members@[1].0@.len() == 5 && members@[2].0@.len()
                == 9);
            assert(members@.len() == 4 ==> members@[3].0@.len() == 12);
        }
        object_value(members)
    }

    /// The request as JSON text, the body of the HTTP request.
    pub fn to_json_text(&self) -> (text: String)
        ensures
            text@ == self@.to_json_text(),
    {
        let value = self.to_json();
        write_text(&value)
    }
}

} // verus!

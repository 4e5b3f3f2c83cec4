//! What holds of the wire encoding for every value.
use crate::encode::{optional_builder, optional_text, orders_json};
use crate::json::{member_from, null_free, other_member_changes_nothing, JsonValue};
use crate::models::{
    ActionView, BuilderView, OrderTypeView, OrderView, PlaceOrderRequestView,
    PlaceOrderResponseView, ResponseStatusView, TriggerOrderView,
};
use vstd::prelude::*;

verus! {

/// Writing the kind of an order and reading the document back gives the
/// kind that was written. A limit order is written as an object with the
/// one member `limit`, whose value has the member `tif` and neither
/// `isMarket` nor `triggerPx`; a trigger order as an object with the one
/// member `trigger`, whose value has `isMarket` and `triggerPx` and no
/// `tif`.
pub proof fn order_type_round_trip(kind: OrderTypeView)
    ensures
        OrderTypeView::from_json(kind.to_json()) == Some(kind),
        kind is Limit ==> {
            &&& OrderTypeView::from_json(kind.to_json()) is Some
            &&& OrderTypeView::from_json(kind.to_json())->0 is Limit
            &&& !kind.to_json().has_key("trigger"@)
            &&& kind.to_json().get("limit"@) is Some
            &&& kind.to_json().get("limit"@)->0.has_key("tif"@)
            &&& !kind.to_json().get("limit"@)->0.has_key("isMarket"@)
            &&& !kind.to_json().get("limit"@)->0.has_key("triggerPx"@)
        },
        kind is Trigger ==> {
            &&& OrderTypeView::from_json(kind.to_json()) is Some
            &&& OrderTypeView::from_json(kind.to_json())->0 is Trigger
            &&& !kind.to_json().has_key("limit"@)
            &&& kind.to_json().get("trigger"@) is Some
            &&& kind.to_json().get("trigger"@)->0.has_key("isMarket"@)
            &&& kind.to_json().get("trigger"@)->0.has_key("triggerPx"@)
            &&& !kind.to_json().get("trigger"@)->0.has_key("tif"@)
        },
{
    reveal_with_fuel(member_from, 4);
    reveal_strlit("limit");
    reveal_strlit("trigger");
    reveal_strlit("tif");
    reveal_strlit("isMarket");
    reveal_strlit("triggerPx");
    reveal_strlit("tpsl");
    assert("limit"@.len() == 5 && "trigger"@.len() == 7);
    assert("tif"@.len() == 3 && "isMarket"@.len() == 8 && "triggerPx"@.len() == 9);
    assert("tpsl"@.len() == 4);
    match kind {
        OrderTypeView::Limit { limit } => {
            let inner = limit.to_json();
            assert(inner->Object_0[0].0 == "tif"@);
            assert(kind.to_json().get("limit"@) == Some(inner));
        },
        OrderTypeView::Trigger { trigger } => {
            let inner = trigger.to_json();
            trigger_round_trip(trigger);
            assert(inner->Object_0[0].0 == "isMarket"@);
            assert(inner->Object_0[1].0 == "triggerPx"@);
            assert(kind.to_json().get("trigger"@) == Some(inner));
        },
    }
}

/// Writing a trigger and reading the document back gives the trigger that
/// was written: with its tag where it has one, without where it has none.
pub proof fn trigger_round_trip(trigger: TriggerOrderView)
    ensures
        TriggerOrderView::from_json(trigger.to_json()) == Some(trigger),
        trigger.tpsl is None ==> !trigger.to_json().has_key("tpsl"@),
{
    reveal_with_fuel(member_from, 4);
    reveal_strlit("isMarket");
    reveal_strlit("triggerPx");
    reveal_strlit("tpsl");
    let members = trigger.to_json()->Object_0;
    assert(members[0].0 == "isMarket"@);
    assert(members[1].0 == "triggerPx"@);
    if trigger.tpsl is Some {
        assert(members[2].0 == "tpsl"@);
    }
}

/// A request that names no vault is written without a member
/// `vaultAddress`: the member is left out, not set to `null`. A request
/// that names one is written with the vault's address as a string.
pub proof fn absent_vault_is_omitted(request: PlaceOrderRequestView)
    ensures
        request.vaultAddress is None ==> !request.to_json().has_key("vaultAddress"@),
        request.vaultAddress is None ==> request.to_json().get("vaultAddress"@) is None,
        request.vaultAddress matches Some(vault) ==> request.to_json().get("vaultAddress"@)
            == Some(JsonValue::Str(vault)),
{
    reveal_with_fuel(member_from, 5);
    reveal_strlit("action");
    reveal_strlit("nonce");
    reveal_strlit("signature");
    reveal_strlit("vaultAddress");
    let members = request.to_json()->Object_0;
    assert(members[0].0 == "action"@);
    assert(members[1].0 == "nonce"@);
    assert(members[2].0 == "signature"@);
}

/// An order without a client order id is written without a member `c`; an
/// order with one is written with the id as a string.
pub proof fn absent_client_id_is_omitted(order: OrderView)
    ensures
        order.c is None ==> !order.to_json().has_key("c"@),
        order.c matches Some(id) ==> order.to_json().get("c"@) == Some(JsonValue::Str(id)),
{
    reveal_with_fuel(member_from, 8);
    reveal_strlit("a");
    reveal_strlit("b");
    reveal_strlit("p");
    reveal_strlit("s");
    reveal_strlit("r");
    reveal_strlit("t");
    reveal_strlit("c");
    let members = order.to_json()->Object_0;
    assert("a"@[0] == 'a' && "b"@[0] == 'b' && "p"@[0] == 'p' && "s"@[0] == 's');
    assert("r"@[0] == 'r' && "t"@[0] == 't' && "c"@[0] == 'c');
    assert(members[0].0 == "a"@ && members[1].0 == "b"@ && members[2].0 == "p"@);
    assert(members[3].0 == "s"@ && members[4].0 == "r"@ && members[5].0 == "t"@);
    if order.c is Some {
        assert(members[6] == ("c"@, JsonValue::Str(order.c->0)));
    }
}

/// An action without a grouping policy is written without a member
/// `grouping`, and an action without a builder without a member `builder`.
/// Where the action has them, they are written under these names.
pub proof fn absent_grouping_and_builder_are_omitted(action: ActionView)
    ensures
        action.grouping is None ==> !action.to_json().has_key("grouping"@),
        action.builder is None ==> !action.to_json().has_key("builder"@),
        action.grouping matches Some(policy) ==> action.to_json().get("grouping"@) == Some(
            JsonValue::Str(policy),
        ),
        action.builder matches Some(builder) ==> action.to_json().get("builder"@) == Some(
            builder.to_json(),
        ),
{
    reveal_with_fuel(member_from, 5);
    reveal_strlit("type");
    reveal_strlit("orders");
    reveal_strlit("grouping");
    reveal_strlit("builder");
    assert("type"@.len() == 4 && "orders"@.len() == 6);
    assert("grouping"@.len() == 8 && "builder"@.len() == 7);
    let members = action.to_json()->Object_0;
    assert(members[0].0 == "type"@);
    assert(members[1].0 == "orders"@);
    if action.grouping is Some {
        assert(members[2] == ("grouping"@, JsonValue::Str(action.grouping->0)));
        if action.builder is Some {
            assert(members[3] == ("builder"@, action.builder->0.to_json()));
        }
    } else if action.builder is Some {
        assert(members[2] == ("builder"@, action.builder->0.to_json()));
    }
}

/// The kind of an action is written under the name `type`, and never under
/// `action_type`.
pub proof fn action_type_is_written_as_type(action: ActionView)
    ensures
        action.to_json().get("type"@) == Some(JsonValue::Str(action.action_type)),
        !action.to_json().has_key("action_type"@),
{
    reveal_with_fuel(member_from, 2);
    reveal_strlit("type");
    reveal_strlit("orders");
    reveal_strlit("grouping");
    reveal_strlit("builder");
    reveal_strlit("action_type");
    let members = action.to_json()->Object_0;
    assert(members[0].0 == "type"@);
    assert(members[1].0 == "orders"@);
    assert(forall|k: int|
        2 <= k < members.len() ==> (#[trigger] members[k]).0 == "grouping"@ || members[k].0
            == "builder"@);
}

/// Price and size of an order are written as JSON strings that hold the
/// order's text unchanged, and so is the price of a trigger.
pub proof fn prices_and_sizes_are_strings(order: OrderView)
    ensures
        order.to_json().get("p"@) == Some(JsonValue::Str(order.p)),
        order.to_json().get("s"@) == Some(JsonValue::Str(order.s)),
        order.t matches OrderTypeView::Trigger { trigger } ==> trigger.to_json().get("triggerPx"@)
            == Some(JsonValue::Str(trigger.triggerPx)),
{
    reveal_with_fuel(member_from, 5);
    reveal_strlit("a");
    reveal_strlit("b");
    reveal_strlit("p");
    reveal_strlit("s");
    reveal_strlit("isMarket");
    reveal_strlit("triggerPx");
    let members = order.to_json()->Object_0;
    assert(members[0].0 == "a"@);
    assert(members[1].0 == "b"@);
    assert(members[2].0 == "p"@);
    assert(members[3].0 == "s"@);
    assert("a"@[0] == 'a' && "b"@[0] == 'b' && "p"@[0] == 'p' && "s"@[0] == 's');
    match order.t {
        OrderTypeView::Trigger { trigger } => {
            let inner = trigger.to_json()->Object_0;
            assert(inner[0].0 == "isMarket"@);
            assert(inner[1].0 == "triggerPx"@);
        },
        _ => {},
    }
}

/// No `null` stands anywhere in the document of a request: whatever is
/// absent from the request is absent from the document.
pub proof fn request_holds_no_null(request: PlaceOrderRequestView)
    ensures
        null_free(request.to_json()),
{
    reveal_with_fuel(null_free, 2);
    action_holds_no_null(request.action);
    let members = request.to_json()->Object_0;
    assert forall|i: int| 0 <= i < members.len() implies null_free((#[trigger] members[i]).1) by {
        assert(i == 0 || i == 1 || i == 2 || i == 3);
    }
}

/// No `null` stands anywhere in the document of an action.
pub proof fn action_holds_no_null(action: ActionView)
    ensures
        null_free(action.to_json()),
{
    reveal_with_fuel(null_free, 2);
    let orders = orders_json(action.orders);
    assert forall|i: int| 0 <= i < orders.len() implies null_free(#[trigger] orders[i]) by {
        order_holds_no_null(action.orders[i]);
    }
    assert(null_free(JsonValue::Array(orders)));
    if action.builder is Some {
        builder_holds_no_null(action.builder->0);
    }
    let fixed = seq![
        ("type"@, JsonValue::Str(action.action_type)),
        ("orders"@, JsonValue::Array(orders)),
    ];
    let grouping = optional_text("grouping"@, action.grouping);
    let builder = optional_builder("builder"@, action.builder);
    let members = action.to_json()->Object_0;
    assert(members == fixed + grouping + builder);
    assert forall|i: int| 0 <= i < members.len() implies null_free((#[trigger] members[i]).1) by {
        if i < 2 {
            assert(members[i] == fixed[i]);
        } else if i < 2 + grouping.len() {
            assert(members[i] == grouping[i - 2]);
        } else {
            assert(members[i] == builder[i - 2 - grouping.len()]);
        }
    }
}

/// No `null` stands anywhere in the document of an order.
pub proof fn order_holds_no_null(order: OrderView)
    ensures
        null_free(order.to_json()),
{
    reveal_with_fuel(null_free, 2);
    order_type_holds_no_null(order.t);
    let members = order.to_json()->Object_0;
    assert forall|i: int| 0 <= i < members.len() implies null_free((#[trigger] members[i]).1) by {
        assert(i == 0 || i == 1 || i == 2 || i == 3 || i == 4 || i == 5 || i == 6);
    }
}

/// No `null` stands anywhere in the document of the kind of an order.
pub proof fn order_type_holds_no_null(kind: OrderTypeView)
    ensures
        null_free(kind.to_json()),
{
    reveal_with_fuel(null_free, 3);
    match kind {
        OrderTypeView::Limit { limit } => {
            assert(null_free(limit.to_json()));
        },
        OrderTypeView::Trigger { trigger } => {
            let members = trigger.to_json()->Object_0;
            assert forall|i: int| 0 <= i < members.len() implies null_free(
                (#[trigger] members[i]).1,
            ) by {
                assert(i == 0 || i == 1 || i == 2);
            }
            assert(null_free(trigger.to_json()));
        },
    }
}

/// No `null` stands anywhere in the document of a builder.
pub proof fn builder_holds_no_null(builder: BuilderView)
    ensures
        null_free(builder.to_json()),
{
    reveal_with_fuel(null_free, 2);
}

/// A member that a response does not know, put anywhere into its document,
/// does not change the response that is read.
pub proof fn response_passes_over_unknown_members(
    members: Seq<(Seq<char>, JsonValue)>,
    at: int,
    extra: (Seq<char>, JsonValue),
)
    requires
        0 <= at <= members.len(),
        extra.0 != "status"@,
        extra.0 != "response"@,
    ensures
        PlaceOrderResponseView::from_json(JsonValue::Object(members.insert(at, extra)))
            == PlaceOrderResponseView::from_json(JsonValue::Object(members)),
{
    other_member_changes_nothing(members, at, extra, "status"@);
    other_member_changes_nothing(members, at, extra, "response"@);
}

/// A member that a status does not know, put anywhere into its document,
/// does not change the status that is read.
pub proof fn status_passes_over_unknown_members(
    members: Seq<(Seq<char>, JsonValue)>,
    at: int,
    extra: (Seq<char>, JsonValue),
)
    requires
        0 <= at <= members.len(),
        extra.0 != "resting"@,
        extra.0 != "error"@,
    ensures
        ResponseStatusView::from_json(JsonValue::Object(members.insert(at, extra)))
            == ResponseStatusView::from_json(JsonValue::Object(members)),
{
    other_member_changes_nothing(members, at, extra, "resting"@);
    other_member_changes_nothing(members, at, extra, "error"@);
}

/// A status that can be read as a resting order is read as one, whatever
/// else its document holds; a rejection is read only where it cannot.
pub proof fn resting_is_tried_first(doc: JsonValue)
    ensures
        ResponseStatusView::resting_from_json(doc) is Some ==> ResponseStatusView::from_json(doc)
            == ResponseStatusView::resting_from_json(doc),
        ResponseStatusView::from_json(doc) matches Some(ResponseStatusView::Error { .. })
            ==> ResponseStatusView::resting_from_json(doc) is None,
        ResponseStatusView::from_json(doc) is None <==> ResponseStatusView::resting_from_json(doc)
            is None && ResponseStatusView::error_from_json(doc) is None,
{
}

} // verus!

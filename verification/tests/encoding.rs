use hyperliquid_sdk::models::{
    Action, Builder, LimitOrder, Order, OrderType, PlaceOrderRequest, TriggerOrder,
};

fn limit(tif: &str) -> OrderType {
    OrderType::Limit { limit: LimitOrder { tif: tif.to_string() } }
}

fn trigger(is_market: bool, px: &str, tpsl: Option<&str>) -> OrderType {
    OrderType::Trigger {
        trigger: TriggerOrder {
            isMarket: is_market,
            triggerPx: px.to_string(),
            tpsl: tpsl.map(|t| t.to_string()),
        },
    }
}

fn spot_buy() -> Order {
    Order {
        a: 10000,
        b: true,
        p: "100.0".to_string(),
        s: "1.0".to_string(),
        r: false,
        t: limit("Gtc"),
        c: None,
    }
}

fn request(orders: Vec<Order>) -> PlaceOrderRequest {
    PlaceOrderRequest {
        action: Action {
            action_type: "order".to_string(),
            orders,
            grouping: Some("na".to_string()),
            builder: None,
        },
        nonce: 1700000000000,
        signature: "0xsigned".to_string(),
        vaultAddress: None,
    }
}

#[test]
fn request_text_is_exact() {
    let text = request(vec![spot_buy()]).to_json_text();
    assert_eq!(
        text,
        "{\"action\":{\"type\":\"order\",\"orders\":[{\"a\":10000,\"b\":true,\"p\":\"100.0\",\
         \"s\":\"1.0\",\"r\":false,\"t\":{\"limit\":{\"tif\":\"Gtc\"}}}],\"grouping\":\"na\"},\
         \"nonce\":1700000000000,\"signature\":\"0xsigned\"}"
    );
}

#[test]
fn request_text_with_every_optional_field() {
    let mut order = spot_buy();
    order.c = Some("0x1234567890abcdef1234567890abcdef".to_string());
    order.t = trigger(true, "95.5", Some("sl"));
    let mut req = request(vec![order]);
    req.action.grouping = Some("normalTpsl".to_string());
    req.action.builder = Some(Builder { b: "0xfee".to_string(), f: 10 });
    req.vaultAddress = Some("0xvault".to_string());
    assert_eq!(
        req.to_json_text(),
        "{\"action\":{\"type\":\"order\",\"orders\":[{\"a\":10000,\"b\":true,\"p\":\"100.0\",\
         \"s\":\"1.0\",\"r\":false,\"t\":{\"trigger\":{\"isMarket\":true,\"triggerPx\":\"95.5\",\
         \"tpsl\":\"sl\"}},\"c\":\"0x1234567890abcdef1234567890abcdef\"}],\
         \"grouping\":\"normalTpsl\",\"builder\":{\"b\":\"0xfee\",\"f\":10}},\
         \"nonce\":1700000000000,\"signature\":\"0xsigned\",\"vaultAddress\":\"0xvault\"}"
    );
}

#[test]
fn request_text_without_any_optional_field() {
    let mut req = request(vec![]);
    req.action.grouping = None;
    assert_eq!(
        req.to_json_text(),
        "{\"action\":{\"type\":\"order\",\"orders\":[]},\"nonce\":1700000000000,\
         \"signature\":\"0xsigned\"}"
    );
}

#[test]
fn absent_vault_address_leaves_no_key() {
    let req = request(vec![spot_buy()]);
    let value = req.to_json();
    let object = value.as_object().unwrap();
    assert!(!object.contains_key("vaultAddress"));
    assert!(!req.to_json_text().contains("vaultAddress"));
    assert!(!req.to_json_text().contains("null"));
}

#[test]
fn present_vault_address_is_a_string() {
    let mut req = request(vec![spot_buy()]);
    req.vaultAddress = Some("0xabc".to_string());
    let value = req.to_json();
    assert_eq!(value.get("vaultAddress").and_then(|v| v.as_str()), Some("0xabc"));
}

#[test]
fn absent_optional_fields_leave_no_null() {
    let order = spot_buy();
    let value = order.to_json();
    assert!(value.get("c").is_none());
    let action = request(vec![]).action;
    let mut bare = action.clone();
    bare.grouping = None;
    let value = bare.to_json();
    assert!(value.get("grouping").is_none());
    assert!(value.get("builder").is_none());
    let kind = trigger(false, "1", None).to_json();
    assert!(kind.get("trigger").unwrap().get("tpsl").is_none());
}

#[test]
fn action_type_goes_under_type() {
    let value = request(vec![spot_buy()]).action.to_json();
    assert_eq!(value.get("type").and_then(|v| v.as_str()), Some("order"));
    assert!(value.get("action_type").is_none());
    assert!(!request(vec![spot_buy()]).to_json_text().contains("action_type"));
}

#[test]
fn members_keep_their_order() {
    let value = spot_buy().to_json();
    let keys: Vec<&str> = value.as_object().unwrap().keys().map(|k| k.as_str()).collect();
    assert_eq!(keys, vec!["a", "b", "p", "s", "r", "t"]);
    let value = request(vec![]).to_json();
    let keys: Vec<&str> = value.as_object().unwrap().keys().map(|k| k.as_str()).collect();
    assert_eq!(keys, vec!["action", "nonce", "signature"]);
}

#[test]
fn price_and_size_stay_strings() {
    let mut order = spot_buy();
    order.p = "100.50".to_string();
    order.s = "0.10".to_string();
    let value = order.to_json();
    assert!(value.get("p").unwrap().is_string());
    assert_eq!(value.get("p").and_then(|v| v.as_str()), Some("100.50"));
    assert_eq!(value.get("s").and_then(|v| v.as_str()), Some("0.10"));
    let text = request(vec![order]).to_json_text();
    assert!(text.contains("\"p\":\"100.50\""));
    assert!(text.contains("\"s\":\"0.10\""));
}

#[test]
fn trigger_price_stays_a_string() {
    let value = trigger(true, "0.000100", Some("tp")).to_json();
    let inner = value.get("trigger").unwrap();
    assert_eq!(inner.get("triggerPx").and_then(|v| v.as_str()), Some("0.000100"));
    assert_eq!(inner.get("isMarket").and_then(|v| v.as_bool()), Some(true));
    assert_eq!(inner.get("tpsl").and_then(|v| v.as_str()), Some("tp"));
}

#[test]
fn numbers_are_unsigned_integers() {
    let mut req = request(vec![spot_buy()]);
    req.nonce = u64::MAX;
    let value = req.to_json();
    assert_eq!(value.get("nonce").and_then(|v| v.as_u64()), Some(u64::MAX));
    assert!(req.to_json_text().contains("\"nonce\":18446744073709551615"));
    let builder = Builder { b: "0x1".to_string(), f: u32::MAX }.to_json();
    assert_eq!(builder.get("f").and_then(|v| v.as_u64()), Some(4294967295));
    let mut order = spot_buy();
    order.a = 0;
    assert_eq!(order.to_json().get("a").and_then(|v| v.as_u64()), Some(0));
}

#[test]
fn text_is_escaped_by_the_json_writer() {
    let mut req = request(vec![]);
    req.signature = "a\"b\\c\n".to_string();
    let text = req.to_json_text();
    assert!(text.contains("\"signature\":\"a\\\"b\\\\c\\n\""));
    let back: serde_json::Value = serde_json::from_str(&text).unwrap();
    assert_eq!(back.get("signature").and_then(|v| v.as_str()), Some("a\"b\\c\n"));
}

#[test]
fn limit_is_written_without_a_tag() {
    let value = limit("Ioc").to_json();
    assert_eq!(serde_json::to_string(&value).unwrap(), "{\"limit\":{\"tif\":\"Ioc\"}}");
    let inner = value.get("limit").unwrap();
    assert!(inner.get("tif").is_some());
    assert!(inner.get("isMarket").is_none());
    assert!(inner.get("triggerPx").is_none());
    assert!(value.get("trigger").is_none());
}

#[test]
fn trigger_is_written_without_a_tag() {
    let value = trigger(false, "12.5", None).to_json();
    assert_eq!(
        serde_json::to_string(&value).unwrap(),
        "{\"trigger\":{\"isMarket\":false,\"triggerPx\":\"12.5\"}}"
    );
    assert!(value.get("limit").is_none());
    assert!(value.get("trigger").unwrap().get("tif").is_none());
}

#[test]
fn limit_round_trip() {
    for tif in ["Gtc", "Ioc", "Alo"] {
        let kind = limit(tif);
        let text = serde_json::to_string(&kind.to_json()).unwrap();
        let value: serde_json::Value = serde_json::from_str(&text).unwrap();
        assert_eq!(OrderType::from_json(&value), Some(kind));
    }
}

#[test]
fn trigger_round_trip() {
    for kind in [
        trigger(true, "95.5", Some("sl")),
        trigger(false, "101", Some("tp")),
        trigger(true, "0.5", None),
    ] {
        let text = serde_json::to_string(&kind.to_json()).unwrap();
        let value: serde_json::Value = serde_json::from_str(&text).unwrap();
        assert_eq!(OrderType::from_json(&value), Some(kind));
    }
}

#[test]
fn several_orders_keep_their_order() {
    let mut second = spot_buy();
    second.a = 3;
    second.b = false;
    let value = request(vec![spot_buy(), second]).to_json();
    let orders = value.get("action").unwrap().get("orders").unwrap().as_array().unwrap();
    assert_eq!(orders.len(), 2);
    assert_eq!(orders[0].get("a").and_then(|v| v.as_u64()), Some(10000));
    assert_eq!(orders[1].get("a").and_then(|v| v.as_u64()), Some(3));
    assert_eq!(orders[1].get("b").and_then(|v| v.as_bool()), Some(false));
}

use hyperliquid_sdk::api::{failure_text, ApiError, HyperliquidApi, Reply};
use hyperliquid_sdk::decode::DecodeError;
use hyperliquid_sdk::models::{
    Action, LimitOrder, Order, OrderType, PlaceOrderRequest, ResponseStatus, RestingData,
};
use hyperliquid_sdk::status::{decimal_text, status_text, status_with_reason};
use hyperliquid_sdk::HyperliquidSDK;

fn request() -> PlaceOrderRequest {
    PlaceOrderRequest {
        action: Action {
            action_type: "order".to_string(),
            orders: vec![Order {
                a: 1,
                b: false,
                p: "2000".to_string(),
                s: "0.5".to_string(),
                r: true,
                t: OrderType::Limit { limit: LimitOrder { tif: "Alo".to_string() } },
                c: None,
            }],
            grouping: None,
            builder: None,
        },
        nonce: 7,
        signature: "sig".to_string(),
        vaultAddress: None,
    }
}

fn answered(status: u16, body: &str) -> Reply {
    Reply::Answered { status, body: Ok(body.to_string()) }
}

#[test]
fn endpoint_is_base_url_and_exchange() {
    let api = HyperliquidApi::new("https://api.example.com".to_string());
    assert_eq!(api.endpoint(), "https://api.example.com/exchange");
    assert_eq!(api.post(&request()).url, "https://api.example.com/exchange");
    assert_eq!(HyperliquidApi::new(String::new()).endpoint(), "/exchange");
}

#[test]
fn post_carries_the_request_as_json() {
    let api = HyperliquidApi::new("https://api.example.com".to_string());
    let post = api.post(&request());
    assert_eq!(post.content_type, "application/json");
    assert_eq!(
        post.body,
        "{\"action\":{\"type\":\"order\",\"orders\":[{\"a\":1,\"b\":false,\"p\":\"2000\",\
         \"s\":\"0.5\",\"r\":true,\"t\":{\"limit\":{\"tif\":\"Alo\"}}}]},\"nonce\":7,\
         \"signature\":\"sig\"}"
    );
    assert_eq!(post.body, request().to_json_text());
}

#[test]
fn sdk_hands_on_to_its_adapter() {
    let api = HyperliquidApi::new("http://localhost:3001".to_string());
    let sdk = HyperliquidSDK::new(api.clone());
    assert_eq!(sdk.api(), &api);
    assert_eq!(sdk.post(&request()), api.post(&request()));
    let outcome = sdk.conclude(answered(200, "{\"status\":\"ok\"}"));
    assert_eq!(outcome.unwrap().status, "ok");
}

#[test]
fn bad_request_is_a_failure_by_status() {
    let outcome = HyperliquidApi::conclude(answered(400, "bad nonce"));
    let error = outcome.unwrap_err();
    assert_eq!(error, ApiError::Status { code: 400, body: "bad nonce".to_string() });
    let message = error.message();
    assert!(message.contains("400"));
    assert!(message.contains("bad nonce"));
    assert_eq!(message, "Request failed with status: 400 Bad Request: bad nonce");
}

#[test]
fn failure_by_status_even_if_the_body_is_a_response() {
    let outcome = HyperliquidApi::conclude(answered(500, "{\"status\":\"ok\"}"));
    assert_eq!(
        outcome,
        Err(ApiError::Status { code: 500, body: "{\"status\":\"ok\"}".to_string() })
    );
}

#[test]
fn unread_body_of_a_failure_is_reported_as_unknown() {
    let reply = Reply::Answered { status: 503, body: Err("connection reset".to_string()) };
    let error = HyperliquidApi::conclude(reply).unwrap_err();
    assert_eq!(error, ApiError::Status { code: 503, body: "Unknown error".to_string() });
    assert_eq!(
        error.message(),
        "Request failed with status: 503 Service Unavailable: Unknown error"
    );
}

#[test]
fn malformed_body_is_a_decoding_failure() {
    let outcome = HyperliquidApi::conclude(answered(200, "{not json"));
    let error = outcome.unwrap_err();
    assert!(matches!(error, ApiError::Decode(DecodeError::Syntax { .. })));
    assert!(!matches!(error, ApiError::Status { .. }));
    assert!(error.message().starts_with("Response body is not JSON: "));
    assert!(error.message().len() > "Response body is not JSON: ".len());
}

#[test]
fn body_of_the_wrong_shape_is_a_decoding_failure() {
    let outcome = HyperliquidApi::conclude(answered(200, "{\"status\":\"ok\",\"response\":7}"));
    let error = outcome.unwrap_err();
    assert_eq!(error, ApiError::Decode(DecodeError::Shape));
    assert_eq!(error.message(), "Response body is not a place-order response");
}

#[test]
fn success_gives_the_response() {
    let body = "{\"status\":\"ok\",\"response\":{\"type\":\"order\",\
                \"data\":{\"statuses\":[{\"resting\":{\"oid\":12345}}]}}}";
    let response = HyperliquidApi::conclude(answered(200, body)).unwrap();
    let statuses = response.response.unwrap().data.unwrap().statuses;
    assert_eq!(statuses, vec![ResponseStatus::Resting { resting: RestingData { oid: 12345 } }]);
}

#[test]
fn every_2xx_is_a_success_and_nothing_else_is() {
    let body = "{\"status\":\"ok\"}";
    for status in [200u16, 201, 204, 250, 299] {
        assert!(HyperliquidApi::conclude(answered(status, body)).is_ok(), "{}", status);
    }
    for status in [0u16, 42, 99, 100, 199, 300, 301, 404, 999, 1000, 2000, 65535] {
        assert_eq!(
            HyperliquidApi::conclude(answered(status, body)),
            Err(ApiError::Status { code: status, body: body.to_string() }),
            "{}",
            status
        );
    }
}

#[test]
fn no_answer_is_a_transport_failure() {
    let reply = Reply::Failed { cause: "dns error".to_string() };
    let error = HyperliquidApi::conclude(reply).unwrap_err();
    assert_eq!(error, ApiError::Transport { detail: "dns error".to_string() });
    assert_eq!(error.message(), "dns error");
}

#[test]
fn success_without_a_readable_body_is_a_transport_failure() {
    let reply = Reply::Answered { status: 200, body: Err("body cut short".to_string()) };
    assert_eq!(
        HyperliquidApi::conclude(reply),
        Err(ApiError::Transport { detail: "body cut short".to_string() })
    );
}

#[test]
fn status_is_written_with_its_reason() {
    assert_eq!(status_text(200), "200 OK");
    assert_eq!(status_text(404), "404 Not Found");
    assert_eq!(status_text(429), "429 Too Many Requests");
    assert_eq!(status_text(299), "299 <unknown status code>");
    assert_eq!(status_text(42), "42 <unknown status code>");
    assert_eq!(status_text(1000), "1000 <unknown status code>");
}

#[test]
fn numbers_in_decimal() {
    assert_eq!(decimal_text(0), "0");
    assert_eq!(decimal_text(7), "7");
    assert_eq!(decimal_text(10), "10");
    assert_eq!(decimal_text(400), "400");
    assert_eq!(decimal_text(1234), "1234");
    assert_eq!(decimal_text(65535), "65535");
    for n in [0u16, 9, 10, 99, 100, 101, 9999, 10000, 60009] {
        assert_eq!(decimal_text(n), n.to_string());
    }
}

#[test]
fn status_is_written_with_a_given_reason() {
    assert_eq!(status_with_reason(400, Some("Bad Request")), "400 Bad Request");
    assert_eq!(status_with_reason(7, Some("")), "7 ");
    assert_eq!(status_with_reason(600, None), "600 <unknown status code>");
}

#[test]
fn failure_is_described_by_status_and_body() {
    assert_eq!(
        failure_text("400 Bad Request", "bad nonce"),
        "Request failed with status: 400 Bad Request: bad nonce"
    );
    assert_eq!(failure_text("", ""), "Request failed with status: : ");
}

//! A client for placing orders on the Hyperliquid exchange.
//!
//! The crate holds the wire model of the place-order call and the rules of
//! its transport: how a request is written as JSON, where it is posted, how
//! the answer is read, and which failure an answer that is no response
//! amounts to. It sends nothing itself. A caller takes the POST to make from
//! [`HyperliquidSDK::post`], performs it with the HTTP client of its choice,
//! and hands what happened to [`HyperliquidSDK::conclude`].
//!
//! - [`models`]: the request, the response and their parts.
//! - [`encode`], [`decode`]: the JSON documents that stand for them.
//! - [`laws`]: what holds of the encoding for every value.
//! - [`json`]: JSON documents, as far as `serde_json` is relied upon.
//! - [`status`]: HTTP status codes, as far as `reqwest` is relied upon.
//! - [`api`]: the transport adapter.
use vstd::prelude::*;

pub mod api;
pub mod decode;
pub mod encode;
pub mod json;
pub mod laws;
pub mod models;
pub mod status;

pub use crate::api::HyperliquidApi;

use crate::api::{conclusion, json_media_type, outcome_view, ApiError, HttpPost, Reply};
use crate::models::{PlaceOrderRequest, PlaceOrderResponse};

verus! {

/// The entry point of the crate: an adapter, ready to place orders.
pub struct HyperliquidSDK {
    api: HyperliquidApi,
}

impl HyperliquidSDK {
    /// The adapter that this value was made with.
    pub closed spec fn adapter(self) -> HyperliquidApi {
        self.api
    }

    /// Places orders through `api`.
    pub fn new(api: HyperliquidApi) -> (sdk: HyperliquidSDK)
        ensures
            sdk.adapter() == api,
    {
        HyperliquidSDK { api }
    }

    /// The adapter that this value was made with.
    pub fn api(&self) -> (api: &HyperliquidApi)
        ensures
            *api == self.adapter(),
    {
        &self.api
    }

    /// The POST that places `order`, as [`HyperliquidApi::post`] gives it.
    pub fn post(&self, order: &PlaceOrderRequest) -> (post: HttpPost)
        ensures
            post.url@ == self.adapter().endpoint_url(),
            post.content_type@ == json_media_type(),
            post.body@ == order@.to_json_text(),
    {
        self.api.post(order)
    }

    /// The response or the failure that a reply amounts to, as
    /// [`HyperliquidApi::conclude`] gives it.
    pub fn conclude(&self, reply: Reply) -> (outcome: Result<PlaceOrderResponse, ApiError>)
        ensures
            outcome_view(outcome) == conclusion(reply@),
    {
        HyperliquidApi::conclude(reply)
    }
}

} // verus!

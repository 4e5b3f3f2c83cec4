//! The transport adapter: what is sent for a place-order request, and what
//! the answer to it means.
//!
//! The adapter does not talk to the network itself. It says which HTTP POST
//! a request calls for ([`HyperliquidApi::post`]), the caller performs it
//! and reports what happened as a [`Reply`], and the adapter turns the reply
//! into a response or into one of three kinds of failure
//! ([`HyperliquidApi::conclude`]). One request is one POST: nothing is
//! retried.
use crate::decode::{DecodeError, DecodeFault};
use crate::json::text_json;
use crate::models::{PlaceOrderRequest, PlaceOrderResponse, PlaceOrderResponseView};
use crate::status::{decimal, is_success, status_line, status_text, success};
use vstd::prelude::*;

verus! {

/// The path of the exchange endpoint, appended to the base URL.
pub open spec fn exchange_path() -> Seq<char> {
    "/exchange"@
}

/// The adapter for one exchange, known by its base URL.
#[derive(Debug, Clone, PartialEq, Eq)]
pub struct HyperliquidApi {
    pub base_url: String,
}

/// The media type of a JSON body.
pub open spec fn json_media_type() -> Seq<char> {
    "application/json"@
}

/// An HTTP POST with a JSON body.
#[derive(Debug, Clone, PartialEq, Eq)]
pub struct HttpPost {
    pub url: String,
    /// The value of the `Content-Type` header.
    pub content_type: String,
    pub body: String,
}

/// What came of an HTTP POST.
#[derive(Debug, PartialEq, Eq)]
pub enum Reply {
    /// The request could not be sent, or no response arrived. `cause` says
    /// why.
    Failed { cause: String },
    /// The server answered with a status code. `body` is the text of the
    /// response body, or the reason why it could not be read.
    Answered { status: u16, body: Result<String, String> },
}

/// The view of [`Reply`].
pub enum ReplyView {
    Failed { cause: Seq<char> },
    Answered { status: u16, body: Result<Seq<char>, Seq<char>> },
}

impl View for Reply {
    type V = ReplyView;

    open spec fn view(&self) -> ReplyView {
        match self {
            Reply::Failed { cause } => ReplyView::Failed { cause: cause@ },
            Reply::Answered { status, body } => ReplyView::Answered {
                status: *status,
                body: match body {
                    Ok(text) => Ok(text@),
                    Err(cause) => Err(cause@),
                },
            },
        }
    }
}

/// Why a place-order request brought no response.
#[derive(Debug, Clone, PartialEq, Eq)]
pub enum ApiError {
    /// The request could not be sent, or the response did not arrive whole.
    Transport { detail: String },
    /// The server answered with a status code that does not mean success.
    /// `body` is the text it sent along.
    Status { code: u16, body: String },
    /// The server answered with success, but its body is no response.
    Decode(DecodeError),
}

/// The view of [`ApiError`]. The wording that the JSON library gave a syntax
/// failure is left out.
pub enum ApiFault {
    Transport { detail: Seq<char> },
    Status { code: u16, body: Seq<char> },
    Decode(DecodeFault),
}

impl View for ApiError {
    type V = ApiFault;

    open spec fn view(&self) -> ApiFault {
        match self {
            ApiError::Transport { detail } => ApiFault::Transport { detail: detail@ },
            ApiError::Status { code, body } => ApiFault::Status { code: *code, body: body@ },
            ApiError::Decode(error) => ApiFault::Decode(error@),
        }
    }
}

/// The view of an outcome.
pub open spec fn outcome_view(outcome: Result<PlaceOrderResponse, ApiError>) -> Result<
    PlaceOrderResponseView,
    ApiFault,
> {
    match outcome {
        Ok(response) => Ok(response@),
        Err(error) => Err(error@),
    }
}

/// What stands for a body that could not be read, in a failure by status.
pub open spec fn unread_body() -> Seq<char> {
    "Unknown error"@
}

/// What a reply means.
///
/// - No answer: a transport failure with the cause reported.
/// - An answer whose status is not a success: a failure by status, with the
///   body as it was sent, or a fixed text where the body could not be read.
/// - An answer with a success status: the response that the body stands
///   for, or a decoding failure where it stands for none. Where the body
///   could not be read, that is a transport failure.
pub open spec fn conclusion(reply: ReplyView) -> Result<PlaceOrderResponseView, ApiFault> {
    match reply {
        ReplyView::Failed { cause } => Err(ApiFault::Transport { detail: cause }),
        ReplyView::Answered { status, body } => if success(status) {
            match body {
                Ok(text) => match PlaceOrderResponseView::from_json_text(text) {
                    Ok(response) => Ok(response),
                    Err(fault) => Err(ApiFault::Decode(fault)),
                },
                Err(cause) => Err(ApiFault::Transport { detail: cause }),
            }
        } else {
            Err(
                ApiFault::Status {
                    code: status,
                    body: match body {
                        Ok(text) => text,
                        Err(_) => unread_body(),
                    },
                },
            )
        },
    }
}

/// `needle` stands somewhere in `text`, in one piece.
pub open spec fn contains(text: Seq<char>, needle: Seq<char>) -> bool {
    exists|at: int|
        0 <= at && at + needle.len() <= text.len() && #[trigger] text.subrange(
            at,
            at + needle.len(),
        ) == needle
}

/// The description of a failure by status, given the status written out:
/// that the request failed, the status, and the body.
pub open spec fn failure_message(status: Seq<char>, body: Seq<char>) -> Seq<char> {
    "Request failed with status: "@ + status + ": "@ + body
}

/// The description of a failure by status.
pub open spec fn status_message(code: u16, body: Seq<char>) -> Seq<char> {
    failure_message(status_line(code), body)
}

/// Writes the description of a failure by status, given the status written
/// out.
pub fn failure_text(status: &str, body: &str) -> (text: String)
    ensures
        text@ == failure_message(status@, body@),
{
    String::from_str("Request failed with status: ").concat(status).concat(": ").concat(body)
}

impl HyperliquidApi {
    /// The adapter for the exchange at `base_url`.
    pub fn new(base_url: String) -> (api: HyperliquidApi)
        ensures
            api.base_url == base_url,
    {
        HyperliquidApi { base_url }
    }

    /// The URL that requests are posted to: the base URL followed by
    /// `/exchange`.
    pub open spec fn endpoint_url(self) -> Seq<char> {
        self.base_url@ + exchange_path()
    }

    /// The URL that requests are posted to.
    pub fn endpoint(&self) -> (url: String)
        ensures
            url@ == self.endpoint_url(),
    {
        let mut url = self.base_url.clone();
        url.append("/exchange");
        url
    }

    /// The POST that places `order`: to the endpoint, with the request as
    /// JSON text for a body and the media type of JSON. The request goes
    /// out as it is, nothing in it is looked at.
    pub fn post(&self, order: &PlaceOrderRequest) -> (post: HttpPost)
        ensures
            post.url@ == self.endpoint_url(),
            post.content_type@ == json_media_type(),
            post.body@ == order@.to_json_text(),
    {
        HttpPost {
            url: self.endpoint(),
            content_type: String::from_str("application/json"),
            body: order.to_json_text(),
        }
    }

    /// Turns what came of the POST into the response or the failure.
    pub fn conclude(reply: Reply) -> (outcome: Result<PlaceOrderResponse, ApiError>)
        ensures
            outcome_view(outcome) == conclusion(reply@),
    {
        match reply {
            Reply::Failed { cause } => Err(ApiError::Transport { detail: cause }),
            Reply::Answered { status, body } => {
                if is_success(status) {
                    match body {
                        Ok(text) => match PlaceOrderResponse::from_json_text(text.as_str()) {
                            Ok(response) => Ok(response),
                            Err(error) => Err(ApiError::Decode(error)),
                        },
                        Err(cause) => Err(ApiError::Transport { detail: cause }),
                    }
                } else {
                    let text = match body {
                        Ok(text) => text,
                        Err(_) => String::from_str("Unknown error"),
                    };
                    Err(ApiError::Status { code: status, body: text })
                }
            },
        }
    }
}

impl ApiError {
    /// The description of the failure: the cause of a transport failure as
    /// it was reported; for a failure by status, the status written out and
    /// the body that came with it; for a decoding failure, which of the two
    /// kinds it is.
    pub open spec fn description(self) -> Seq<char> {
        match self {
            ApiError::Transport { detail } => detail@,
            ApiError::Status { code, body } => status_message(code, body@),
            ApiError::Decode(DecodeError::Shape) => "Response body is not a place-order response"@,
            ApiError::Decode(DecodeError::Syntax { detail }) => "Response body is not JSON: "@
                + detail@,
        }
    }

    /// A description of the failure for a person to read.
    pub fn message(&self) -> (text: String)
        ensures
            text@ == self.description(),
    {
        match self {
            ApiError::Transport { detail } => detail.clone(),
            ApiError::Status { code, body } => failure_text(
                status_text(*code).as_str(),
                body.as_str(),
            ),
            ApiError::Decode(DecodeError::Shape) => String::from_str(
                "Response body is not a place-order response",
            ),
            ApiError::Decode(DecodeError::Syntax { detail }) => String::from_str(
                "Response body is not JSON: ",
            ).concat(detail.as_str()),
        }
    }
}

/// A reply with a status that is not a success is a failure by status, and
/// nothing else: it carries the status code and the body, and its
/// description holds the code in decimal and the body, each in one piece.
pub proof fn failure_by_status_tells_code_and_body(status: u16, body: Seq<char>)
    requires
        !success(status),
    ensures
        conclusion(ReplyView::Answered { status, body: Ok(body) }) == Err::<
            PlaceOrderResponseView,
            ApiFault,
        >(ApiFault::Status { code: status, body }),
        contains(status_message(status, body), decimal(status as nat)),
        contains(status_message(status, body), body),
{
    let prefix = "Request failed with status: "@;
    let text = status_message(status, body);
    let code = decimal(status as nat);
    let code_at = prefix.len() as int;
    let body_at = text.len() - body.len();
    assert(text.subrange(code_at, code_at + code.len()) =~= code);
    assert(text.subrange(body_at, body_at + body.len()) =~= body);
}

/// A reply with a success status never is a failure by status: it is the
/// response that the body stands for, a decoding failure where the body
/// stands for none, or a transport failure where the body did not arrive.
pub proof fn success_is_no_failure_by_status(status: u16, body: Result<Seq<char>, Seq<char>>)
    requires
        success(status),
    ensures
        !(conclusion(ReplyView::Answered { status, body }) matches Err(ApiFault::Status { .. })),
        body matches Ok(text) ==> (text_json(text) is None ==> conclusion(
            ReplyView::Answered { status, body },
        ) == Err::<PlaceOrderResponseView, ApiFault>(ApiFault::Decode(DecodeFault::Syntax))),
{
}

} // verus!

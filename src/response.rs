//! Responses: a status code and a body. Error bodies are JSON objects with
//! an `error` message; record bodies are serialised by the caller.
use vstd::prelude::*;

use crate::error::{reports, AppError, status_of};
use crate::wishlist::{Wishlist, WishlistView};

verus! {

/// The body of a response.
#[derive(Debug)]
pub enum ResponseBody {
    /// No body.
    Empty,
    /// A JSON text, ready to send.
    Json(String),
    /// One record, to be sent as a JSON object.
    Record(Wishlist),
    /// A collection of records, to be sent as a JSON array.
    Records(Vec<Wishlist>),
}

pub enum BodyView {
    Empty,
    Json(Seq<char>),
    Record(WishlistView),
    Records(Seq<WishlistView>),
}

/// A response: status code and body.
#[derive(Debug)]
pub struct ApiResponse {
    pub status: u16,
    pub body: ResponseBody,
}

pub struct ResponseView {
    pub status: u16,
    pub body: BodyView,
}

/// The values of a sequence of records.
pub open spec fn records(v: Seq<Wishlist>) -> Seq<WishlistView> {
    v.map_values(|w: Wishlist| w@)
}

impl View for ResponseBody {
    type V = BodyView;

    open spec fn view(&self) -> BodyView {
        match self {
            ResponseBody::Empty => BodyView::Empty,
            ResponseBody::Json(s) => BodyView::Json(s@),
            ResponseBody::Record(w) => BodyView::Record(w@),
            ResponseBody::Records(v) => BodyView::Records(records(v@)),
        }
    }
}

impl View for ApiResponse {
    type V = ResponseView;

    open spec fn view(&self) -> ResponseView {
        ResponseView { status: self.status, body: self.body@ }
    }
}

/// The JSON string literal that stands for a text.
pub uninterp spec fn json_quoted(s: Seq<char>) -> Seq<char>;

/// Relies on the `Display` impl of `serde_json::Value`: for a
/// `Value::String` it writes the JSON string literal of the text, which
/// depends on the text alone.
#[verifier::external_body]
fn quote_json(s: &str) -> (r: String)
    ensures
        r@ == json_quoted(s@),
{
    serde_json::Value::String(s.to_string()).to_string()
}

/// The JSON object `{"error":<message>}` in compact form.
pub open spec fn error_body(message: Seq<char>) -> Seq<char> {
    "{\"error\":"@ + json_quoted(message) + "}"@
}

/// The body of the health check.
pub open spec fn health_body() -> Seq<char> {
    "{\"status\":\"OK\"}"@
}

/// The JSON error object for a message.
pub fn error_json(message: &str) -> (r: String)
    ensures
        r@ == error_body(message@),
{
    let q = quote_json(message);
    let mut r = "{\"error\":".to_string();
    r.append(q.as_str());
    r.append("}");
    r
}

/// A response with a status code and a body.
pub fn build_response(status: u16, body: ResponseBody) -> (r: ApiResponse)
    ensures
        r@ == (ResponseView { status, body: body@ }),
{
    ApiResponse { status, body }
}

/// A response with a status code and a JSON error object for a message.
pub fn build_error_response(status: u16, message: &str) -> (r: ApiResponse)
    ensures
        r@ == (ResponseView { status, body: BodyView::Json(error_body(message@)) }),
{
    ApiResponse { status, body: ResponseBody::Json(error_json(message)) }
}

/// The response that reports an error: its status code, and a JSON error
/// object with the message shown to clients.
pub fn error_response(e: &AppError) -> (r: ApiResponse)
    ensures
        r@.status == status_of(*e),
        exists|t: Seq<char>| reports(*e, t) && r@.body == BodyView::Json(error_body(t)),
{
    let t = e.public_message();
    build_error_response(e.status_code(), t.as_str())
}

/// The health check response: status 200 and `{"status":"OK"}`.
pub fn health_response() -> (r: ApiResponse)
    ensures
        r@ == (ResponseView { status: 200, body: BodyView::Json(health_body()) }),
{
    ApiResponse { status: 200, body: ResponseBody::Json("{\"status\":\"OK\"}".to_string()) }
}

} // verus!

//! Answers to clients.
use vstd::prelude::*;

verus! {

/// What an answer carries.
#[derive(Debug, Clone)]
pub enum Body {
    Empty,
    Text(String),
    Bytes(Vec<u8>),
}

/// What an answer carries, as sequences.
pub enum BodyView {
    Empty,
    Text(Seq<char>),
    Bytes(Seq<u8>),
}

impl View for Body {
    type V = BodyView;

    open spec fn view(&self) -> BodyView {
        match self {
            Body::Empty => BodyView::Empty,
            Body::Text(text) => BodyView::Text(text@),
            Body::Bytes(bytes) => BodyView::Bytes(bytes@),
        }
    }
}

/// An answer to a client.
#[derive(Debug, Clone)]
pub struct Response {
    pub status: u16,
    pub content_type: Option<String>,
    /// Seconds that the client may keep the answer, if it is told.
    pub max_age: Option<u32>,
    pub body: Body,
}

/// An answer to a client, with its texts as character sequences.
pub struct ResponseView {
    pub status: u16,
    pub content_type: Option<Seq<char>>,
    pub max_age: Option<u32>,
    pub body: BodyView,
}

impl View for Response {
    type V = ResponseView;

    open spec fn view(&self) -> ResponseView {
        ResponseView {
            status: self.status,
            content_type: self.content_type.deep_view(),
            max_age: self.max_age,
            body: self.body@,
        }
    }
}

/// A status that reports success.
pub open spec fn success_status(status: u16) -> bool {
    200 <= status < 300
}

/// The answer to a request that is not served.
pub open spec fn refusal_of(reason: Seq<char>) -> ResponseView {
    ResponseView {
        status: 400,
        content_type: Some("text/plain"@),
        max_age: None,
        body: BodyView::Text(reason),
    }
}

/// The answer that delivers an object.
pub open spec fn delivery_of(content_type: Seq<char>, max_age: u32, bytes: Seq<u8>) -> ResponseView {
    ResponseView {
        status: 200,
        content_type: Some(content_type),
        max_age: Some(max_age),
        body: BodyView::Bytes(bytes),
    }
}

/// The answer when the service does not deliver the object.
pub open spec fn upstream_failure_view() -> ResponseView {
    ResponseView { status: 500, content_type: None, max_age: None, body: BodyView::Empty }
}

/// Whether a status reports success.
pub fn is_success(status: u16) -> (success: bool)
    ensures
        success == success_status(status),
{
    200 <= status && status < 300
}

/// The answer to a request that is not served.
pub fn refusal(reason: &str) -> (response: Response)
    ensures
        response@ == refusal_of(reason@),
{
    Response {
        status: 400,
        content_type: Some("text/plain".to_owned()),
        max_age: None,
        body: Body::Text(reason.to_owned()),
    }
}

/// The answer that delivers an object.
pub fn delivery(content_type: String, max_age: u32, bytes: Vec<u8>) -> (response: Response)
    ensures
        response@ == delivery_of(content_type@, max_age, bytes@),
{
    Response {
        status: 200,
        content_type: Some(content_type),
        max_age: Some(max_age),
        body: Body::Bytes(bytes),
    }
}

/// The answer when the service does not deliver the object.
pub fn upstream_failure() -> (response: Response)
    ensures
        response@ == upstream_failure_view(),
{
    Response { status: 500, content_type: None, max_age: None, body: Body::Empty }
}

/// The answer to a health check.
pub fn get_health_status() -> (response: Response)
    ensures
        response@ == (ResponseView {
            status: 200,
            content_type: Some("text/plain"@),
            max_age: None,
            body: BodyView::Text("200 OK"@),
        }),
{
    Response {
        status: 200,
        content_type: Some("text/plain".to_owned()),
        max_age: None,
        body: Body::Text("200 OK".to_owned()),
    }
}

/// A delivery carries all the bytes that were handed in and no others, under the media type and
/// with the age that were handed in.
pub proof fn deliveries_carry_what_was_handed_in(
    content_type: String,
    max_age: u32,
    bytes: Vec<u8>,
    response: Response,
)
    requires
        call_ensures(delivery, (content_type, max_age, bytes), response),
    ensures
        response.status == 200,
        response.content_type matches Some(text) && text@ == content_type@,
        response.max_age == Some(max_age),
        response.body matches Body::Bytes(body) && body@.len() == bytes@.len() && forall|i: int|
            0 <= i < bytes@.len() ==> #[trigger] body@[i] == bytes@[i],
{
    assert(response.content_type.deep_view() == Some(content_type@));
}

/// A refusal gives the reason as plain text and is not to be kept.
pub proof fn refusals_give_the_reason(reason: &str, response: Response)
    requires
        call_ensures(refusal, (reason,), response),
    ensures
        response.status == 400,
        response.content_type matches Some(text) && text@ == "text/plain"@,
        response.max_age is None,
        response.body matches Body::Text(body) && body@ == reason@,
{
    assert(response.content_type.deep_view() == Some("text/plain"@));
}

/// The answer for a service that does not deliver carries nothing but its status.
pub proof fn upstream_failures_carry_nothing(response: Response)
    requires
        call_ensures(upstream_failure, (), response),
    ensures
        response.status == 500,
        response.content_type is None,
        response.max_age is None,
        response.body is Empty,
{
}

/// A health check is answered with a line of plain text.
pub proof fn health_checks_are_answered(response: Response)
    requires
        call_ensures(get_health_status, (), response),
    ensures
        response.status == 200,
        response.content_type matches Some(text) && text@ == "text/plain"@,
        response.max_age is None,
        response.body matches Body::Text(body) && body@ == "200 OK"@,
{
    assert(response.content_type.deep_view() == Some("text/plain"@));
}

/// Success is a status in the two hundreds.
pub proof fn success_is_two_hundred_and_some(status: u16, success: bool)
    requires
        call_ensures(is_success, (status,), success),
    ensures
        success <==> status / 100 == 2,
{
}

} // verus!

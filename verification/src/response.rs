use vstd::prelude::*;

verus! {

/// Status returned when a request was captured and stored.
pub const STATUS_OK: u16 = 200;

/// Status every internal failure collapses to.
pub const STATUS_INTERNAL_ERROR: u16 = 500;

/// Why one request's handling failed: the body stream broke before it
/// was fully buffered, or the persistence collaborator reported an
/// error on the store call. The kind is kept for server-side
/// diagnostics; the client-visible status does not distinguish them.
#[derive(Clone, Copy, Debug, PartialEq, Eq, Structural)]
pub enum FailureKind {
    Transport,
    Storage,
}

/// A response as this core decides it: a status code and the body
/// text. Turning it into wire bytes is the surrounding server's job.
pub struct HttpResponse {
    pub status: u16,
    pub body: String,
}

/// Mathematical image of `HttpResponse`.
pub ghost struct ResponseView {
    pub status: u16,
    pub body: Seq<char>,
}

impl View for HttpResponse {
    type V = ResponseView;

    open spec fn view(&self) -> ResponseView {
        ResponseView { status: self.status, body: self.body@ }
    }
}

/// The fixed acknowledgement text sent after a successful capture. It
/// is a static placeholder, never derived from the captured data: the
/// service records traffic, it does not answer for the upstream.
pub open spec fn ack_text() -> Seq<char> {
    "Trust me, this is the response your server gave!"@
}

/// The response owed to a request whose record was stored.
pub open spec fn success_response_view() -> ResponseView {
    ResponseView { status: STATUS_OK, body: ack_text() }
}

/// The response owed to a request that failed internally: the generic
/// server error with an empty body, whatever the failure kind. The
/// deliberate collapse keeps internals out of the client's sight;
/// finer per-kind status mapping is left to a future revision.
pub open spec fn failure_response_view(kind: FailureKind) -> ResponseView {
    ResponseView { status: STATUS_INTERNAL_ERROR, body: Seq::<char>::empty() }
}

/// Build the fixed success acknowledgement.
pub fn success_response() -> (r: HttpResponse)
    ensures
        r@ == success_response_view(),
        r.status == STATUS_OK,
{
    HttpResponse {
        status: STATUS_OK,
        body: String::from_str("Trust me, this is the response your server gave!"),
    }
}

/// Build the generic server-error response. Every failure kind maps to
/// the same status with an empty body: no internal detail reaches the
/// client.
pub fn failure_response(kind: FailureKind) -> (r: HttpResponse)
    ensures
        r@ == failure_response_view(kind),
        r.status == STATUS_INTERNAL_ERROR,
{
    HttpResponse { status: STATUS_INTERNAL_ERROR, body: String::new() }
}

} // verus!

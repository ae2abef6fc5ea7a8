use vstd::prelude::*;

use crate::record::{assemble_record, assembled_record, CaptureRecord, MetaView, RecordView, RequestMeta};
use crate::response::{
    failure_response, failure_response_view, success_response, success_response_view, FailureKind,
    HttpResponse, ResponseView,
};

verus! {

/// Universal route acceptance: every method token and every target,
/// however deep or strange, is dispatched to the capture handler.
/// Routing alone rejects nothing, by design: the service exists to
/// observe traffic it has never seen configured in advance.
#[allow(unused_variables)]
pub fn accepts_request(method: &str, target: &str) -> (r: bool)
    ensures
        r,
{
    true
}

/// Where one request's handling stands. A request walks
/// `Received -> HeadersParsed -> BodyBuffered -> RecordAssembled ->
/// Stored -> Acknowledged`; any failure before `Stored` drops it into
/// `Failed`, which only proceeds to `ErrorResponded`. There is no retry
/// transition: a failed request must be resent by the client. Once the
/// record is assembled it moves out with the store call, ownership and
/// all; the state keeps only the identifier, the record's sole external
/// handle from then on.
pub enum SessionState {
    Received,
    HeadersParsed { meta: RequestMeta },
    BodyBuffered { meta: RequestMeta, body: Vec<u8> },
    RecordAssembled { id: u128 },
    Stored { id: u128 },
    Acknowledged { id: u128 },
    Failed { kind: FailureKind },
    ErrorResponded { kind: FailureKind },
}

/// Mathematical image of `SessionState`.
pub ghost enum StateView {
    Received,
    HeadersParsed { meta: MetaView },
    BodyBuffered { meta: MetaView, body: Seq<u8> },
    RecordAssembled { id: u128 },
    Stored { id: u128 },
    Acknowledged { id: u128 },
    Failed { kind: FailureKind },
    ErrorResponded { kind: FailureKind },
}

impl View for SessionState {
    type V = StateView;

    open spec fn view(&self) -> StateView {
        match self {
            SessionState::Received => StateView::Received,
            SessionState::HeadersParsed { meta } => StateView::HeadersParsed { meta: meta@ },
            SessionState::BodyBuffered { meta, body } => StateView::BodyBuffered {
                meta: meta@,
                body: body@,
            },
            SessionState::RecordAssembled { id } => StateView::RecordAssembled { id: *id },
            SessionState::Stored { id } => StateView::Stored { id: *id },
            SessionState::Acknowledged { id } => StateView::Acknowledged { id: *id },
            SessionState::Failed { kind } => StateView::Failed { kind: *kind },
            SessionState::ErrorResponded { kind } => StateView::ErrorResponded { kind: *kind },
        }
    }
}

/// What the surrounding server reports back to the pipeline: the
/// outcome of each piece of outside work it was asked to do.
pub enum SessionEvent {
    /// Method, target and headers were read off the request head.
    HeadersRead { meta: RequestMeta },
    /// The body stream was drained completely into memory.
    BodyRead { body: Vec<u8> },
    /// The body stream broke before it was fully read.
    BodyFailed,
    /// A fresh identifier was drawn for this request.
    IdAssigned { id: u128 },
    /// The persistence collaborator accepted the record.
    StoreCompleted,
    /// The persistence collaborator reported an error.
    StoreFailed,
    /// The decided response went out to the client.
    ResponseSent,
}

/// Mathematical image of `SessionEvent`.
pub ghost enum EventView {
    HeadersRead { meta: MetaView },
    BodyRead { body: Seq<u8> },
    BodyFailed,
    IdAssigned { id: u128 },
    StoreCompleted,
    StoreFailed,
    ResponseSent,
}

impl View for SessionEvent {
    type V = EventView;

    open spec fn view(&self) -> EventView {
        match self {
            SessionEvent::HeadersRead { meta } => EventView::HeadersRead { meta: meta@ },
            SessionEvent::BodyRead { body } => EventView::BodyRead { body: body@ },
            SessionEvent::BodyFailed => EventView::BodyFailed,
            SessionEvent::IdAssigned { id } => EventView::IdAssigned { id: *id },
            SessionEvent::StoreCompleted => EventView::StoreCompleted,
            SessionEvent::StoreFailed => EventView::StoreFailed,
            SessionEvent::ResponseSent => EventView::ResponseSent,
        }
    }
}

/// What the pipeline asks the surrounding server to do next. Every
/// piece of outside work (reading the socket, drawing randomness,
/// calling storage, writing the response) happens out there; the
/// pipeline only decides.
pub enum SessionAction {
    /// Drain the request body fully into memory.
    ReadBody,
    /// Draw a fresh identifier.
    AssignId,
    /// Hand this record to the persistence collaborator's store call.
    /// Ownership of the record transfers with it.
    Persist { record: CaptureRecord },
    /// Send this response to the client.
    Respond { response: HttpResponse },
    /// The request's handling is over.
    Done,
}

/// Mathematical image of `SessionAction`.
pub ghost enum ActionView {
    ReadBody,
    AssignId,
    Persist { record: RecordView },
    Respond { response: ResponseView },
    Done,
}

impl View for SessionAction {
    type V = ActionView;

    open spec fn view(&self) -> ActionView {
        match self {
            SessionAction::ReadBody => ActionView::ReadBody,
            SessionAction::AssignId => ActionView::AssignId,
            SessionAction::Persist { record } => ActionView::Persist { record: record@ },
            SessionAction::Respond { response } => ActionView::Respond { response: response@ },
            SessionAction::Done => ActionView::Done,
        }
    }
}

/// Which events a state admits. Each state awaits the outcome of
/// exactly the work it asked for; the two terminal states
/// (`Acknowledged`, `ErrorResponded`) admit nothing.
pub open spec fn admits(s: StateView, e: EventView) -> bool {
    match (s, e) {
        (StateView::Received, EventView::HeadersRead { .. }) => true,
        (StateView::HeadersParsed { .. }, EventView::BodyRead { .. }) => true,
        (StateView::HeadersParsed { .. }, EventView::BodyFailed) => true,
        (StateView::BodyBuffered { .. }, EventView::IdAssigned { .. }) => true,
        (StateView::RecordAssembled { .. }, EventView::StoreCompleted) => true,
        (StateView::RecordAssembled { .. }, EventView::StoreFailed) => true,
        (StateView::Stored { .. }, EventView::ResponseSent) => true,
        (StateView::Failed { .. }, EventView::ResponseSent) => true,
        _ => false,
    }
}

/// The transition relation, as a function: next state and the action
/// owed for it. A full body earns an identifier; an identifier earns
/// the assembled record and the one store call; a completed store earns
/// the fixed acknowledgement; a broken body or a failed store earns the
/// generic server error.
pub open spec fn step_view(s: StateView, e: EventView) -> (StateView, ActionView)
    recommends
        admits(s, e),
{
    match (s, e) {
        (StateView::Received, EventView::HeadersRead { meta }) => (
            StateView::HeadersParsed { meta },
            ActionView::ReadBody,
        ),
        (StateView::HeadersParsed { meta }, EventView::BodyRead { body }) => (
            StateView::BodyBuffered { meta, body },
            ActionView::AssignId,
        ),
        (StateView::HeadersParsed { .. }, EventView::BodyFailed) => (
            StateView::Failed { kind: FailureKind::Transport },
            ActionView::Respond { response: failure_response_view(FailureKind::Transport) },
        ),
        (StateView::BodyBuffered { meta, body }, EventView::IdAssigned { id }) => (
            StateView::RecordAssembled { id },
            ActionView::Persist { record: assembled_record(id, meta, body) },
        ),
        (StateView::RecordAssembled { id }, EventView::StoreCompleted) => (
            StateView::Stored { id },
            ActionView::Respond { response: success_response_view() },
        ),
        (StateView::RecordAssembled { .. }, EventView::StoreFailed) => (
            StateView::Failed { kind: FailureKind::Storage },
            ActionView::Respond { response: failure_response_view(FailureKind::Storage) },
        ),
        (StateView::Stored { id }, EventView::ResponseSent) => (
            StateView::Acknowledged { id },
            ActionView::Done,
        ),
        (StateView::Failed { kind }, EventView::ResponseSent) => (
            StateView::ErrorResponded { kind },
            ActionView::Done,
        ),
        _ => (s, ActionView::Done),
    }
}

/// Advance one request's handling by one observed outcome. The caller
/// performs the returned action and reports its outcome as the next
/// event.
pub fn step(s: SessionState, e: SessionEvent) -> (r: (SessionState, SessionAction))
    requires
        admits(s@, e@),
    ensures
        r.0@ == step_view(s@, e@).0,
        r.1@ == step_view(s@, e@).1,
{
    match (s, e) {
        (SessionState::Received, SessionEvent::HeadersRead { meta }) => (
            SessionState::HeadersParsed { meta },
            SessionAction::ReadBody,
        ),
        (SessionState::HeadersParsed { meta }, SessionEvent::BodyRead { body }) => (
            SessionState::BodyBuffered { meta, body },
            SessionAction::AssignId,
        ),
        (SessionState::HeadersParsed { .. }, SessionEvent::BodyFailed) => (
            SessionState::Failed { kind: FailureKind::Transport },
            SessionAction::Respond { response: failure_response(FailureKind::Transport) },
        ),
        (SessionState::BodyBuffered { meta, body }, SessionEvent::IdAssigned { id }) => (
            SessionState::RecordAssembled { id },
            SessionAction::Persist { record: assemble_record(id, meta, body) },
        ),
        (SessionState::RecordAssembled { id }, SessionEvent::StoreCompleted) => (
            SessionState::Stored { id },
            SessionAction::Respond { response: success_response() },
        ),
        (SessionState::RecordAssembled { .. }, SessionEvent::StoreFailed) => (
            SessionState::Failed { kind: FailureKind::Storage },
            SessionAction::Respond { response: failure_response(FailureKind::Storage) },
        ),
        (SessionState::Stored { id }, SessionEvent::ResponseSent) => (
            SessionState::Acknowledged { id },
            SessionAction::Done,
        ),
        (SessionState::Failed { kind }, SessionEvent::ResponseSent) => (
            SessionState::ErrorResponded { kind },
            SessionAction::Done,
        ),
        _ => vstd::pervasive::unreached(),
    }
}

} // verus!

use vstd::prelude::*;

use crate::pipeline::{admits, step_view, ActionView, EventView, StateView};
use crate::record::{assembled_record, MetaView};
use crate::response::{failure_response_view, success_response_view, FailureKind, STATUS_INTERNAL_ERROR};

verus! {

/// The state one request reaches after its handling observes `events`,
/// one by one, starting from `s`.
pub open spec fn run_state(s: StateView, events: Seq<EventView>) -> StateView
    decreases events.len(),
{
    if events.len() == 0 {
        s
    } else {
        run_state(step_view(s, events[0]).0, events.drop_first())
    }
}

/// Every event of `events` is admitted by the state it meets.
pub open spec fn trace_admitted(s: StateView, events: Seq<EventView>) -> bool
    decreases events.len(),
{
    events.len() == 0 || (admits(s, events[0]) && trace_admitted(
        step_view(s, events[0]).0,
        events.drop_first(),
    ))
}

/// How many store calls the pipeline asks for along `events` from `s`.
pub open spec fn persist_count(s: StateView, events: Seq<EventView>) -> nat
    decreases events.len(),
{
    if events.len() == 0 {
        0
    } else {
        (if step_view(s, events[0]).1 is Persist {
            1nat
        } else {
            0nat
        }) + persist_count(step_view(s, events[0]).0, events.drop_first())
    }
}

/// How many store calls a request standing in `s` has behind it: none
/// before the record is assembled and none after a transport failure,
/// one from the moment of assembly on and one behind a storage failure
/// (the failed call itself).
pub open spec fn persists_behind(s: StateView) -> nat {
    match s {
        StateView::Received => 0,
        StateView::HeadersParsed { .. } => 0,
        StateView::BodyBuffered { .. } => 0,
        StateView::RecordAssembled { .. } => 1,
        StateView::Stored { .. } => 1,
        StateView::Acknowledged { .. } => 1,
        StateView::Failed { kind } => if kind is Storage {
            1nat
        } else {
            0nat
        },
        StateView::ErrorResponded { kind } => if kind is Storage {
            1nat
        } else {
            0nat
        },
    }
}

proof fn lemma_step_persists(s: StateView, e: EventView)
    requires
        admits(s, e),
    ensures
        persists_behind(step_view(s, e).0) == persists_behind(s) + (if step_view(s, e).1 is Persist {
            1nat
        } else {
            0nat
        }),
{
}

proof fn lemma_run_persists(s: StateView, events: Seq<EventView>)
    requires
        trace_admitted(s, events),
    ensures
        persists_behind(run_state(s, events)) == persists_behind(s) + persist_count(s, events),
    decreases events.len(),
{
    if events.len() > 0 {
        lemma_step_persists(s, events[0]);
        lemma_run_persists(step_view(s, events[0]).0, events.drop_first());
    }
}

/// Write-once: along any admitted handling of one request, the store
/// call is asked for at most once; exactly once whenever the request
/// reaches `Stored` or `Acknowledged`, and never when the body stream
/// failed first (a transport failure ends handling with no store call).
pub proof fn lemma_store_write_once(events: Seq<EventView>)
    requires
        trace_admitted(StateView::Received, events),
    ensures
        persist_count(StateView::Received, events) <= 1,
        run_state(StateView::Received, events) matches StateView::Stored { .. } ==> persist_count(
            StateView::Received,
            events,
        ) == 1,
        run_state(StateView::Received, events) matches StateView::Acknowledged { .. }
            ==> persist_count(StateView::Received, events) == 1,
        run_state(StateView::Received, events) == (StateView::Failed {
            kind: FailureKind::Transport,
        }) ==> persist_count(StateView::Received, events) == 0,
        run_state(StateView::Received, events) == (StateView::ErrorResponded {
            kind: FailureKind::Transport,
        }) ==> persist_count(StateView::Received, events) == 0,
{
    lemma_run_persists(StateView::Received, events);
    assert(persists_behind(run_state(StateView::Received, events)) <= 1);
}

/// Failure collapse, at the failing transition: whatever error the
/// persistence collaborator reports, the pipeline's next action is to
/// respond with the generic server error (status 500, empty body), and
/// the request ends in the storage-failure branch.
pub proof fn lemma_failure_collapse(s: StateView)
    requires
        admits(s, EventView::StoreFailed),
    ensures
        step_view(s, EventView::StoreFailed).0 == (StateView::Failed {
            kind: FailureKind::Storage,
        }),
        step_view(s, EventView::StoreFailed).1 == (ActionView::Respond {
            response: failure_response_view(FailureKind::Storage),
        }),
        step_view(s, EventView::StoreFailed).1 matches ActionView::Respond { response }
            && response.status == STATUS_INTERNAL_ERROR && response.body == Seq::<char>::empty(),
{
}

/// Success acknowledgement: when the persistence collaborator accepts
/// the record, the pipeline's next action is to respond with status 200
/// and the fixed acknowledgement text.
pub proof fn lemma_success_acknowledgement(s: StateView)
    requires
        admits(s, EventView::StoreCompleted),
    ensures
        step_view(s, EventView::StoreCompleted).1 == (ActionView::Respond {
            response: success_response_view(),
        }),
{
}

/// A state from which the storage failure can no longer be undone.
pub open spec fn storage_failed(s: StateView) -> bool {
    ||| s == (StateView::Failed { kind: FailureKind::Storage })
    ||| s == (StateView::ErrorResponded { kind: FailureKind::Storage })
}

proof fn lemma_storage_failed_absorbing(s: StateView, events: Seq<EventView>)
    requires
        trace_admitted(s, events),
        storage_failed(s),
    ensures
        storage_failed(run_state(s, events)),
    decreases events.len(),
{
    if events.len() > 0 {
        lemma_storage_failed_absorbing(step_view(s, events[0]).0, events.drop_first());
    }
}

/// `events` reports a storage error somewhere.
pub open spec fn has_store_failure(events: Seq<EventView>) -> bool {
    exists|i: int| 0 <= i < events.len() && events[i] is StoreFailed
}

proof fn lemma_store_failure_dooms(s: StateView, events: Seq<EventView>)
    requires
        trace_admitted(s, events),
        has_store_failure(events),
    ensures
        storage_failed(run_state(s, events)),
    decreases events.len(),
{
    let i = choose|i: int| 0 <= i < events.len() && events[i] is StoreFailed;
    if events[0] is StoreFailed {
        lemma_storage_failed_absorbing(step_view(s, events[0]).0, events.drop_first());
    } else {
        assert(events.drop_first()[i - 1] is StoreFailed);
        lemma_store_failure_dooms(step_view(s, events[0]).0, events.drop_first());
    }
}

/// Failure collapse, over a whole handling: once the persistence
/// collaborator has reported an error, the request can never reach
/// `Stored` or `Acknowledged` — there is no retry and no acknowledged
/// record of the failed attempt.
pub proof fn lemma_failed_store_never_acknowledged(events: Seq<EventView>)
    requires
        trace_admitted(StateView::Received, events),
        has_store_failure(events),
    ensures
        storage_failed(run_state(StateView::Received, events)),
        !(run_state(StateView::Received, events) matches StateView::Stored { .. }),
        !(run_state(StateView::Received, events) matches StateView::Acknowledged { .. }),
{
    lemma_store_failure_dooms(StateView::Received, events);
}

/// No store call out of thin air: wherever the pipeline asks for a
/// record to be persisted, the state it left was the buffered capture
/// of exactly that record's method, target, headers and body, and the
/// event was the assignment of exactly that record's identifier. The
/// store call can carry nothing but what was received.
pub proof fn lemma_persist_only_from_capture(s: StateView, e: EventView)
    requires
        admits(s, e),
        step_view(s, e).1 is Persist,
    ensures
        step_view(s, e).1 matches ActionView::Persist { record } ==> {
            &&& s == (StateView::BodyBuffered {
                meta: MetaView {
                    method: record.method,
                    target: record.target,
                    headers: record.headers,
                },
                body: record.body,
            })
            &&& e == (EventView::IdAssigned { id: record.id })
        },
{
}

/// Record fidelity: the one record handed to the store call repeats
/// the captured method, target, headers (order and duplicates intact)
/// and body exactly, under the assigned identifier — nothing is
/// transformed, trimmed or normalized on the way.
pub proof fn lemma_record_fidelity(meta: MetaView, body: Seq<u8>, id: u128)
    ensures
        ({
            let r = step_view(
                StateView::BodyBuffered { meta, body },
                EventView::IdAssigned { id },
            );
            &&& r.0 == (StateView::RecordAssembled { id })
            &&& r.1 matches ActionView::Persist { record }
            &&& record.id == id
            &&& record.method == meta.method
            &&& record.target == meta.target
            &&& record.headers == meta.headers
            &&& record.body == body
        }),
{
}

/// The actions the pipeline asks for along `events` from `s`, in order.
pub open spec fn run_actions(s: StateView, events: Seq<EventView>) -> Seq<ActionView>
    decreases events.len(),
{
    if events.len() == 0 {
        Seq::empty()
    } else {
        seq![step_view(s, events[0]).1] + run_actions(step_view(s, events[0]).0, events.drop_first())
    }
}

/// The successful handling of any request, whole: for every method,
/// target, header list, body and identifier, the five outcomes of the
/// happy path are admitted in order from `Received`; they ask for the
/// body, an identifier, one store call carrying the verbatim record,
/// the fixed 200 acknowledgement, and nothing more; and the request
/// ends acknowledged under its identifier.
pub proof fn lemma_success_path(meta: MetaView, body: Seq<u8>, id: u128)
    ensures
        ({
            let events = seq![
                EventView::HeadersRead { meta },
                EventView::BodyRead { body },
                EventView::IdAssigned { id },
                EventView::StoreCompleted,
                EventView::ResponseSent,
            ];
            &&& trace_admitted(StateView::Received, events)
            &&& run_state(StateView::Received, events) == (StateView::Acknowledged { id })
            &&& run_actions(StateView::Received, events) =~= seq![
                ActionView::ReadBody,
                ActionView::AssignId,
                ActionView::Persist { record: assembled_record(id, meta, body) },
                ActionView::Respond { response: success_response_view() },
                ActionView::Done,
            ]
            &&& persist_count(StateView::Received, events) == 1
        }),
{
    let events = seq![
        EventView::HeadersRead { meta },
        EventView::BodyRead { body },
        EventView::IdAssigned { id },
        EventView::StoreCompleted,
        EventView::ResponseSent,
    ];
    lemma_five_step_unfold(StateView::Received, events);
}

/// A broken body stream, whole: reading the head and then losing the
/// body is admitted from `Received`, asks for no store call, answers
/// with the generic server error, and ends the request in the
/// transport-failure branch.
pub proof fn lemma_transport_failure_path(meta: MetaView)
    ensures
        ({
            let events = seq![
                EventView::HeadersRead { meta },
                EventView::BodyFailed,
                EventView::ResponseSent,
            ];
            &&& trace_admitted(StateView::Received, events)
            &&& run_state(StateView::Received, events) == (StateView::ErrorResponded {
                kind: FailureKind::Transport,
            })
            &&& run_actions(StateView::Received, events) =~= seq![
                ActionView::ReadBody,
                ActionView::Respond { response: failure_response_view(FailureKind::Transport) },
                ActionView::Done,
            ]
            &&& persist_count(StateView::Received, events) == 0
        }),
{
    let events = seq![
        EventView::HeadersRead { meta },
        EventView::BodyFailed,
        EventView::ResponseSent,
    ];
    let s0 = StateView::Received;
    let t1 = events.drop_first();
    let t2 = t1.drop_first();
    let t3 = t2.drop_first();
    let s1 = step_view(s0, events[0]).0;
    let s2 = step_view(s1, events[1]).0;
    let s3 = step_view(s2, events[2]).0;
    lemma_unfold_step(s0, events);
    lemma_unfold_step(s1, t1);
    lemma_unfold_step(s2, t2);
    assert(t3.len() == 0);
    assert(run_actions(s3, t3) =~= Seq::<ActionView>::empty());
    assert(run_actions(s2, t2) =~= seq![step_view(s2, events[2]).1]);
    assert(run_actions(s1, t1) =~= seq![step_view(s1, events[1]).1, step_view(s2, events[2]).1]);
    assert(run_actions(s0, events) =~= seq![
        step_view(s0, events[0]).1,
        step_view(s1, events[1]).1,
        step_view(s2, events[2]).1,
    ]);
}

/// A failed store call, whole: the full capture followed by a storage
/// error is admitted from `Received`, asks for exactly the one store
/// call, answers with the generic server error, and ends the request
/// in the storage-failure branch — never acknowledged.
pub proof fn lemma_storage_failure_path(meta: MetaView, body: Seq<u8>, id: u128)
    ensures
        ({
            let events = seq![
                EventView::HeadersRead { meta },
                EventView::BodyRead { body },
                EventView::IdAssigned { id },
                EventView::StoreFailed,
                EventView::ResponseSent,
            ];
            &&& trace_admitted(StateView::Received, events)
            &&& run_state(StateView::Received, events) == (StateView::ErrorResponded {
                kind: FailureKind::Storage,
            })
            &&& run_actions(StateView::Received, events) =~= seq![
                ActionView::ReadBody,
                ActionView::AssignId,
                ActionView::Persist { record: assembled_record(id, meta, body) },
                ActionView::Respond { response: failure_response_view(FailureKind::Storage) },
                ActionView::Done,
            ]
            &&& persist_count(StateView::Received, events) == 1
        }),
{
    let events = seq![
        EventView::HeadersRead { meta },
        EventView::BodyRead { body },
        EventView::IdAssigned { id },
        EventView::StoreFailed,
        EventView::ResponseSent,
    ];
    lemma_five_step_unfold(StateView::Received, events);
}

proof fn lemma_unfold_step(s: StateView, events: Seq<EventView>)
    requires
        events.len() > 0,
    ensures
        run_state(s, events) == run_state(step_view(s, events[0]).0, events.drop_first()),
        run_actions(s, events) == seq![step_view(s, events[0]).1] + run_actions(
            step_view(s, events[0]).0,
            events.drop_first(),
        ),
        trace_admitted(s, events) <==> (admits(s, events[0]) && trace_admitted(
            step_view(s, events[0]).0,
            events.drop_first(),
        )),
        persist_count(s, events) == (if step_view(s, events[0]).1 is Persist {
            1nat
        } else {
            0nat
        }) + persist_count(step_view(s, events[0]).0, events.drop_first()),
{
}

proof fn lemma_five_step_unfold(s0: StateView, events: Seq<EventView>)
    requires
        events.len() == 5,
    ensures
        ({
            let s1 = step_view(s0, events[0]).0;
            let s2 = step_view(s1, events[1]).0;
            let s3 = step_view(s2, events[2]).0;
            let s4 = step_view(s3, events[3]).0;
            let s5 = step_view(s4, events[4]).0;
            &&& run_state(s0, events) == s5
            &&& run_actions(s0, events) =~= seq![
                step_view(s0, events[0]).1,
                step_view(s1, events[1]).1,
                step_view(s2, events[2]).1,
                step_view(s3, events[3]).1,
                step_view(s4, events[4]).1,
            ]
            &&& trace_admitted(s0, events) <==> {
                &&& admits(s0, events[0])
                &&& admits(s1, events[1])
                &&& admits(s2, events[2])
                &&& admits(s3, events[3])
                &&& admits(s4, events[4])
            }
            &&& persist_count(s0, events) == (if step_view(s0, events[0]).1 is Persist { 1nat } else { 0nat })
                + (if step_view(s1, events[1]).1 is Persist { 1nat } else { 0nat })
                + (if step_view(s2, events[2]).1 is Persist { 1nat } else { 0nat })
                + (if step_view(s3, events[3]).1 is Persist { 1nat } else { 0nat })
                + (if step_view(s4, events[4]).1 is Persist { 1nat } else { 0nat })
        }),
{
    let s1 = step_view(s0, events[0]).0;
    let s2 = step_view(s1, events[1]).0;
    let s3 = step_view(s2, events[2]).0;
    let s4 = step_view(s3, events[3]).0;
    let t1 = events.drop_first();
    let t2 = t1.drop_first();
    let t3 = t2.drop_first();
    let t4 = t3.drop_first();
    let t5 = t4.drop_first();
    assert(t1[0] == events[1] && t2[0] == events[2] && t3[0] == events[3] && t4[0] == events[4]);
    assert(t5.len() == 0);
    lemma_unfold_step(s0, events);
    lemma_unfold_step(s1, t1);
    lemma_unfold_step(s2, t2);
    lemma_unfold_step(s3, t3);
    lemma_unfold_step(s4, t4);
    let s5 = step_view(s4, events[4]).0;
    assert(run_actions(s5, t5) =~= Seq::<ActionView>::empty());
    assert(run_actions(s4, t4) =~= seq![step_view(s4, events[4]).1]);
    assert(run_actions(s3, t3) =~= seq![step_view(s3, events[3]).1, step_view(s4, events[4]).1]);
    assert(run_actions(s2, t2) =~= seq![
        step_view(s2, events[2]).1,
        step_view(s3, events[3]).1,
        step_view(s4, events[4]).1,
    ]);
    assert(run_actions(s1, t1) =~= seq![
        step_view(s1, events[1]).1,
        step_view(s2, events[2]).1,
        step_view(s3, events[3]).1,
        step_view(s4, events[4]).1,
    ]);
    assert(run_actions(s0, events) =~= seq![
        step_view(s0, events[0]).1,
        step_view(s1, events[1]).1,
        step_view(s2, events[2]).1,
        step_view(s3, events[3]).1,
        step_view(s4, events[4]).1,
    ]);
}

} // verus!

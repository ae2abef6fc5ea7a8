use reqcapture::ident::fresh_capture_id;
use reqcapture::pipeline::{accepts_request, step, SessionAction, SessionEvent, SessionState};
use reqcapture::record::{assemble_record, CaptureRecord, RequestMeta};
use reqcapture::response::{failure_response, success_response, FailureKind, HttpResponse};

const ACK: &str = "Trust me, this is the response your server gave!";

fn meta(method: &str, target: &str, headers: Vec<(String, Vec<u8>)>) -> RequestMeta {
    RequestMeta { method: method.to_string(), target: target.to_string(), headers }
}

fn expect_persist(a: SessionAction) -> CaptureRecord {
    match a {
        SessionAction::Persist { record } => record,
        _ => panic!("expected a persist action"),
    }
}

fn expect_respond(a: SessionAction) -> HttpResponse {
    match a {
        SessionAction::Respond { response } => response,
        _ => panic!("expected a respond action"),
    }
}

#[test]
fn routing_accepts_everything() {
    assert!(accepts_request("GET", "/"));
    assert!(accepts_request("PATCH", "/arbitrary/deep/path?x=1"));
    assert!(accepts_request("BREW", "/coffee"));
    assert!(accepts_request("", ""));
    assert!(accepts_request("POST", "/a/b/c/d/e/f?q=%20&r=##"));
}

#[test]
fn scenario_health_get() {
    let (s, a) = step(
        SessionState::Received,
        SessionEvent::HeadersRead { meta: meta("GET", "/health", Vec::new()) },
    );
    assert!(matches!(a, SessionAction::ReadBody));
    let (s, a) = step(s, SessionEvent::BodyRead { body: Vec::new() });
    assert!(matches!(a, SessionAction::AssignId));
    let id = fresh_capture_id();
    let (s, a) = step(s, SessionEvent::IdAssigned { id });
    let record = expect_persist(a);
    assert_eq!(record.id, id);
    assert_eq!(record.method, "GET");
    assert_eq!(record.target, "/health");
    assert!(record.headers.is_empty());
    assert!(record.body.is_empty());
    let (s, a) = step(s, SessionEvent::StoreCompleted);
    assert!(matches!(s, SessionState::Stored { .. }));
    let response = expect_respond(a);
    assert_eq!(response.status, 200);
    assert_eq!(response.body, ACK);
    let (s, a) = step(s, SessionEvent::ResponseSent);
    assert!(matches!(s, SessionState::Acknowledged { .. }));
    assert!(matches!(a, SessionAction::Done));
}

#[test]
fn scenario_post_submit() {
    let headers = vec![("X-Trace".to_string(), b"abc".to_vec())];
    let (s, _) = step(
        SessionState::Received,
        SessionEvent::HeadersRead { meta: meta("POST", "/submit", headers) },
    );
    let (s, _) = step(s, SessionEvent::BodyRead { body: b"{\"x\":1}".to_vec() });
    let (_, a) = step(s, SessionEvent::IdAssigned { id: fresh_capture_id() });
    let record = expect_persist(a);
    assert_eq!(record.method, "POST");
    assert_eq!(record.target, "/submit");
    assert_eq!(record.body, b"{\"x\":1}".to_vec());
    assert!(record
        .headers
        .iter()
        .any(|(name, value)| name == "X-Trace" && value == b"abc"));
}

#[test]
fn scenario_store_failure() {
    let (s, _) = step(
        SessionState::Received,
        SessionEvent::HeadersRead { meta: meta("PUT", "/things/9", Vec::new()) },
    );
    let (s, _) = step(s, SessionEvent::BodyRead { body: b"payload".to_vec() });
    let (s, a) = step(s, SessionEvent::IdAssigned { id: fresh_capture_id() });
    let _record_handed_out = expect_persist(a);
    let (s, a) = step(s, SessionEvent::StoreFailed);
    assert!(matches!(s, SessionState::Failed { kind: FailureKind::Storage }));
    let response = expect_respond(a);
    assert_eq!(response.status, 500);
    assert_eq!(response.body, "");
    let (s, a) = step(s, SessionEvent::ResponseSent);
    assert!(matches!(s, SessionState::ErrorResponded { kind: FailureKind::Storage }));
    assert!(matches!(a, SessionAction::Done));
}

#[test]
fn transport_failure_collapses_to_500() {
    let (s, _) = step(
        SessionState::Received,
        SessionEvent::HeadersRead { meta: meta("POST", "/upload", Vec::new()) },
    );
    let (s, a) = step(s, SessionEvent::BodyFailed);
    assert!(matches!(s, SessionState::Failed { kind: FailureKind::Transport }));
    let response = expect_respond(a);
    assert_eq!(response.status, 500);
    assert_eq!(response.body, "");
    let (s, _) = step(s, SessionEvent::ResponseSent);
    assert!(matches!(s, SessionState::ErrorResponded { kind: FailureKind::Transport }));
}

#[test]
fn record_fidelity_duplicate_headers() {
    let headers = vec![
        ("Accept".to_string(), b"text/html".to_vec()),
        ("X-Tag".to_string(), b"one".to_vec()),
        ("X-Tag".to_string(), b"two".to_vec()),
        ("x-tag".to_string(), b"three".to_vec()),
    ];
    let body = vec![0u8, 255, 1, 2, 0];
    let (s, _) = step(
        SessionState::Received,
        SessionEvent::HeadersRead {
            meta: meta("QUERY", "/exact?q=a%20b&q=c", headers.clone()),
        },
    );
    let (s, _) = step(s, SessionEvent::BodyRead { body: body.clone() });
    let (s, a) = step(s, SessionEvent::IdAssigned { id: 42 });
    assert!(matches!(s, SessionState::RecordAssembled { id: 42 }));
    let record = expect_persist(a);
    assert_eq!(record.id, 42);
    assert_eq!(record.method, "QUERY");
    assert_eq!(record.target, "/exact?q=a%20b&q=c");
    assert_eq!(record.headers, headers);
    assert_eq!(record.body, body);
}

#[test]
fn assemble_record_keeps_fields_verbatim() {
    let headers = vec![("Host".to_string(), b"example".to_vec())];
    let m = meta("DELETE", "/x//y/?", headers.clone());
    let record = assemble_record(7, m, vec![9, 8, 7]);
    assert_eq!(record.id, 7);
    assert_eq!(record.method, "DELETE");
    assert_eq!(record.target, "/x//y/?");
    assert_eq!(record.headers, headers);
    assert_eq!(record.body, vec![9, 8, 7]);
}

#[test]
fn empty_body_is_captured_as_empty() {
    let record = assemble_record(1, meta("GET", "/", Vec::new()), Vec::new());
    assert_eq!(record.body, Vec::<u8>::new());
}

#[test]
fn success_response_is_fixed_acknowledgement() {
    let response = success_response();
    assert_eq!(response.status, 200);
    assert_eq!(response.body, ACK);
}

#[test]
fn failure_responses_collapse_to_generic_error() {
    let transport = failure_response(FailureKind::Transport);
    let storage = failure_response(FailureKind::Storage);
    assert_eq!(transport.status, 500);
    assert_eq!(storage.status, 500);
    assert_eq!(transport.body, "");
    assert_eq!(storage.body, "");
}

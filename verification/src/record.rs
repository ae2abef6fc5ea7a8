use vstd::prelude::*;

verus! {

/// One request's metadata as received off the wire: the method token
/// taken verbatim (no normalization, no whitelist), the target exactly
/// as the client sent it (path plus query, unvalidated), and the header
/// list in wire order, duplicates and values preserved byte for byte.
pub struct RequestMeta {
    pub method: String,
    pub target: String,
    pub headers: Vec<(String, Vec<u8>)>,
}

/// Mathematical image of `RequestMeta`: each field as a sequence.
pub ghost struct MetaView {
    pub method: Seq<char>,
    pub target: Seq<char>,
    pub headers: Seq<(Seq<char>, Seq<u8>)>,
}

impl View for RequestMeta {
    type V = MetaView;

    open spec fn view(&self) -> MetaView {
        MetaView {
            method: self.method@,
            target: self.target@,
            headers: self.headers.deep_view(),
        }
    }
}

/// The sole domain entity: the immutable capture of one received
/// request. It is assembled exactly once, handed to the persistence
/// collaborator exactly once, and never mutated afterwards. The `id`
/// is the record's only external handle once persisted; the remaining
/// fields repeat the request verbatim, the body as an opaque byte
/// sequence (an empty body is a valid, present body).
pub struct CaptureRecord {
    pub id: u128,
    pub method: String,
    pub target: String,
    pub headers: Vec<(String, Vec<u8>)>,
    pub body: Vec<u8>,
}

/// Mathematical image of `CaptureRecord`.
pub ghost struct RecordView {
    pub id: u128,
    pub method: Seq<char>,
    pub target: Seq<char>,
    pub headers: Seq<(Seq<char>, Seq<u8>)>,
    pub body: Seq<u8>,
}

impl View for CaptureRecord {
    type V = RecordView;

    open spec fn view(&self) -> RecordView {
        RecordView {
            id: self.id,
            method: self.method@,
            target: self.target@,
            headers: self.headers.deep_view(),
            body: self.body@,
        }
    }
}

/// The record that assembling an identifier, captured metadata and a
/// buffered body yields: every field is carried over unchanged.
pub open spec fn assembled_record(id: u128, meta: MetaView, body: Seq<u8>) -> RecordView {
    RecordView {
        id: id,
        method: meta.method,
        target: meta.target,
        headers: meta.headers,
        body: body,
    }
}

/// Assemble the immutable record for one captured request. Nothing is
/// transformed, trimmed or normalized: the result holds the arguments
/// verbatim.
pub fn assemble_record(id: u128, meta: RequestMeta, body: Vec<u8>) -> (r: CaptureRecord)
    ensures
        r@ == assembled_record(id, meta@, body@),
{
    CaptureRecord {
        id: id,
        method: meta.method,
        target: meta.target,
        headers: meta.headers,
        body: body,
    }
}

} // verus!

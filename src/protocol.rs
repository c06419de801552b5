//! The dispatcher: allocation of request ids, the table of requests that
//! wait for a response, and the responses owed to inbound requests.
use vstd::prelude::*;
use crate::json::{Json, owned};
use crate::transport::{ErrorModel, JsonRpcError, JsonRpcRequest, JsonRpcResponse, JsonRpcVersion, RequestId, ResponseModel};
use crate::types::{ErrorCode, code_of};

verus! {

/// The default request timeout, in milliseconds.
pub const DEFAULT_REQUEST_TIMEOUT_MSEC: u64 = 60000;

/// Options of an outbound request.
pub struct RequestOptions {
    /// How long to wait for the response, in milliseconds.
    pub timeout: u64,
}

impl RequestOptions {
    /// These options with the timeout set to `timeout` milliseconds.
    pub fn timeout(self, timeout: u64) -> (r: RequestOptions)
        ensures
            r.timeout == timeout,
    {
        RequestOptions { timeout }
    }
}

impl Default for RequestOptions {
    fn default() -> (r: RequestOptions)
        ensures
            r.timeout == DEFAULT_REQUEST_TIMEOUT_MSEC,
    {
        RequestOptions { timeout: DEFAULT_REQUEST_TIMEOUT_MSEC }
    }
}

/// Requests sent on one connection that still wait for their response, each
/// with the slot through which its waiter is signalled.
pub struct PendingTable<S> {
    next_id: u64,
    slots: Vec<(u64, S)>,
}

impl<S> PendingTable<S> {
    /// The id that the next request will get.
    pub closed spec fn next(&self) -> u64 {
        self.next_id
    }

    /// The waiting requests, in the order they were sent.
    pub closed spec fn entries(&self) -> Seq<(u64, S)> {
        self.slots@
    }

    pub open spec fn is_pending(&self, id: u64) -> bool {
        exists|i: int| 0 <= i < self.entries().len() && #[trigger] self.entries()[i].0 == id
    }

    /// Every waiting id was issued before, and no id waits twice.
    pub open spec fn wf(&self) -> bool {
        &&& forall|i: int| 0 <= i < self.entries().len() ==> #[trigger] self.entries()[i].0 < self.next()
        &&& forall|i: int, j: int|
            0 <= i < j < self.entries().len() ==> #[trigger] self.entries()[i].0 != #[trigger] self.entries()[j].0
    }

    /// `after` is `before` with one more request, numbered `id`, waiting on `slot`.
    pub open spec fn created(before: Self, after: Self, id: u64, slot: S) -> bool {
        &&& id == before.next()
        &&& after.next() == before.next() + 1
        &&& after.entries() == before.entries().push((id, slot))
    }

    /// `after` is `before` with the request `id` removed.
    pub open spec fn removed(before: Self, after: Self, id: u64) -> bool {
        &&& after.next() == before.next()
        &&& !after.is_pending(id)
        &&& forall|k: u64| k != id ==> (after.is_pending(k) <==> before.is_pending(k))
    }

    pub fn new() -> (r: PendingTable<S>)
        ensures
            r.wf(),
            r.next() == 0,
            r.entries().len() == 0,
    {
        PendingTable { next_id: 0, slots: Vec::new() }
    }

    /// Number of requests that wait.
    pub fn len(&self) -> (r: usize)
        ensures
            r == self.entries().len(),
    {
        self.slots.len()
    }

    /// Whether the request `id` waits for its response.
    pub fn contains(&self, id: RequestId) -> (r: bool)
        ensures
            r == self.is_pending(id),
    {
        let mut i: usize = 0;
        while i < self.slots.len()
            invariant
                i <= self.slots@.len(),
                forall|k: int| 0 <= k < i ==> self.slots@[k].0 != id,
            decreases self.slots.len() - i,
        {
            if self.slots[i].0 == id {
                assert(self.entries()[i as int].0 == id);
                return true;
            }
            i = i + 1;
        }
        assert(!self.is_pending(id)) by {
            assert forall|k: int| 0 <= k < self.entries().len() implies #[trigger] self.entries()[k].0 != id by {
                assert(self.slots@[k].0 != id);
            }
        }
        false
    }

    /// Allocates the next id and records `slot` as waiting for it. Only
    /// when all 2^64 ids have been used is nothing allocated.
    pub fn create_request(&mut self, slot: S) -> (r: Option<RequestId>)
        requires
            old(self).wf(),
        ensures
            final(self).wf(),
            old(self).next() < u64::MAX ==> r == Some(old(self).next()) && Self::created(*old(self), *final(self), r->0, slot),
            old(self).next() == u64::MAX ==> r is None && *final(self) == *old(self),
    {
        if self.next_id == u64::MAX {
            return None;
        }
        let id = self.next_id;
        self.slots.push((id, slot));
        self.next_id = id + 1;
        proof {
            assert forall|i: int| 0 <= i < self.entries().len() implies #[trigger] self.entries()[i].0 < self.next() by {
                if i < old(self).entries().len() {
                    assert(self.entries()[i] == old(self).entries()[i]);
                }
            }
            assert forall|i: int, j: int| 0 <= i < j < self.entries().len() implies #[trigger] self.entries()[i].0
                != #[trigger] self.entries()[j].0 by {
                assert(self.entries()[i] == old(self).entries()[i]);
                if j < old(self).entries().len() {
                    assert(self.entries()[j] == old(self).entries()[j]);
                }
            }
        }
        Some(id)
    }

    /// Removes the request `id` and hands back its slot, if it was waiting.
    #[verifier::loop_isolation(false)]
    pub fn take(&mut self, id: RequestId) -> (r: Option<S>)
        requires
            old(self).wf(),
        ensures
            final(self).wf(),
            Self::removed(*old(self), *final(self), id),
            match r {
                Some(s) => exists|i: int| 0 <= i < old(self).entries().len() && old(self).entries()[i] == (id, s),
                None => !old(self).is_pending(id) && *final(self) == *old(self),
            },
    {
        let mut i: usize = 0;
        while i < self.slots.len()
            invariant
                i <= self.slots@.len(),
                *self == *old(self),
                forall|k: int| 0 <= k < i ==> self.slots@[k].0 != id,
            decreases self.slots.len() - i,
        {
            if self.slots[i].0 == id {
                let ghost before = self.slots@;
                let (_, s) = self.slots.remove(i);
                proof {
                    assert(self.slots@ == before.remove(i as int));
                    assert(self.entries() == self.slots@);
                    assert(old(self).entries() == before);
                    assert forall|k: u64| k != id implies (self.is_pending(k) <==> old(self).is_pending(k)) by {
                        if old(self).is_pending(k) {
                            let j = choose|j: int| 0 <= j < old(self).entries().len() && #[trigger] old(self).entries()[j].0 == k;
                            if j < i {
                                assert(self.entries()[j].0 == k);
                            } else {
                                assert(j != i);
                                assert(self.entries()[j - 1].0 == k);
                            }
                        }
                        if self.is_pending(k) {
                            let j = choose|j: int| 0 <= j < self.entries().len() && #[trigger] self.entries()[j].0 == k;
                            if j < i {
                                assert(old(self).entries()[j].0 == k);
                            } else {
                                assert(old(self).entries()[j + 1].0 == k);
                            }
                        }
                    }
                    assert forall|j: int| 0 <= j < self.slots@.len() implies #[trigger] self.slots@[j].0 != id by {
                        if j < i {
                            assert(before[j].0 != before[i as int].0);
                        } else {
                            assert(before[j + 1].0 != before[i as int].0);
                        }
                    }
                    assert forall|a: int, b: int| 0 <= a < b < self.slots@.len() implies #[trigger] self.slots@[a].0
                        != #[trigger] self.slots@[b].0 by {
                        let a1 = if a < i { a } else { a + 1 };
                        let b1 = if b < i { b } else { b + 1 };
                        assert(self.slots@[a] == before[a1]);
                        assert(self.slots@[b] == before[b1]);
                    }
                    assert(before[i as int] == (id, s));
                }
                return Some(s);
            }
            i = i + 1;
        }
        assert(!self.is_pending(id)) by {
            assert forall|k: int| 0 <= k < self.entries().len() implies #[trigger] self.entries()[k].0 != id by {
                assert(self.slots@[k].0 != id);
            }
        }
        None
    }

    /// Delivers an inbound response: the waiter of `response.id` is removed
    /// and handed back together with the response. A response for an id that
    /// does not wait (a late one, after cancellation) is dropped.
    pub fn handle_response(&mut self, response: JsonRpcResponse) -> (r: Option<(S, JsonRpcResponse)>)
        requires
            old(self).wf(),
        ensures
            final(self).wf(),
            Self::removed(*old(self), *final(self), response.id),
            match r {
                Some((s, resp)) => resp == response && exists|i: int|
                    0 <= i < old(self).entries().len() && old(self).entries()[i] == (response.id, s),
                None => !old(self).is_pending(response.id) && *final(self) == *old(self),
            },
    {
        match self.take(response.id) {
            Some(s) => Some((s, response)),
            None => None,
        }
    }

    /// Cancels the request `id`: its waiter is removed and handed back with
    /// a synthetic response that carries a `RequestTimeout` error.
    pub fn cancel_response(&mut self, id: RequestId, reason: CancelReason) -> (r: Option<(S, JsonRpcResponse)>)
        requires
            old(self).wf(),
        ensures
            final(self).wf(),
            Self::removed(*old(self), *final(self), id),
            match r {
                Some((s, resp)) => resp@ == timeout_response_model(id, reason) && exists|i: int|
                    0 <= i < old(self).entries().len() && old(self).entries()[i] == (id, s),
                None => !old(self).is_pending(id) && *final(self) == *old(self),
            },
    {
        match self.take(id) {
            Some(s) => Some((s, timeout_response(id, reason))),
            None => None,
        }
    }
}

/// Why a waiting request is given up.
#[derive(Debug, Clone, Copy, PartialEq, Eq, Structural)]
pub enum CancelReason {
    /// The caller cancelled it.
    Cancelled,
    /// Its timeout expired.
    TimedOut,
}

pub open spec fn cancel_message(reason: CancelReason) -> Seq<char> {
    match reason {
        CancelReason::Cancelled => "Request cancelled"@,
        CancelReason::TimedOut => "Request timed out"@,
    }
}

/// The response that stands in for one that never came.
pub open spec fn timeout_response_model(id: u64, reason: CancelReason) -> ResponseModel {
    ResponseModel {
        id,
        result: None,
        error: Some(ErrorModel { code: code_of(ErrorCode::RequestTimeout), message: cancel_message(reason), data: None }),
        jsonrpc: "2.0"@,
    }
}

/// The synthetic response given to the waiter of a request that was
/// cancelled or timed out.
pub fn timeout_response(id: RequestId, reason: CancelReason) -> (r: JsonRpcResponse)
    ensures
        r@ == timeout_response_model(id, reason),
{
    let message = match reason {
        CancelReason::Cancelled => owned("Request cancelled"),
        CancelReason::TimedOut => owned("Request timed out"),
    };
    JsonRpcResponse {
        id,
        result: None,
        error: Some(JsonRpcError { code: ErrorCode::RequestTimeout.code(), message, data: None }),
        jsonrpc: JsonRpcVersion::default(),
    }
}

/// What the handler of an inbound request produced.
pub enum HandlerOutcome {
    /// The handler's result.
    Done(Json),
    /// The handler failed with this message.
    Failed(String),
}

/// The response owed to an inbound request, given what its handler produced
/// (`None` when no handler is registered for its method).
pub open spec fn request_response_model(request: JsonRpcRequest, outcome: Option<HandlerOutcome>) -> ResponseModel {
    ResponseModel {
        id: request.id,
        result: match outcome {
            Some(HandlerOutcome::Done(v)) => Some(v@),
            _ => None,
        },
        error: match outcome {
            None => Some(
                ErrorModel {
                    code: code_of(ErrorCode::MethodNotFound),
                    message: "Method not found: "@ + request.method@,
                    data: None,
                },
            ),
            Some(HandlerOutcome::Failed(m)) => Some(
                ErrorModel { code: code_of(ErrorCode::InternalError), message: m@, data: None },
            ),
            Some(HandlerOutcome::Done(_)) => None,
        },
        jsonrpc: "2.0"@,
    }
}

/// Builds the one response that every inbound request gets: the handler's
/// result, an `InternalError` with the handler's message, or
/// `MethodNotFound` when no handler is registered.
pub fn request_response(request: &JsonRpcRequest, outcome: Option<HandlerOutcome>) -> (r: JsonRpcResponse)
    ensures
        r@ == request_response_model(*request, outcome),
        r.id == request.id,
{
    let jsonrpc = JsonRpcVersion::default();
    match outcome {
        None => {
            let message = owned("Method not found: ").concat(request.method.as_str());
            JsonRpcResponse {
                id: request.id,
                result: None,
                error: Some(JsonRpcError { code: ErrorCode::MethodNotFound.code(), message, data: None }),
                jsonrpc,
            }
        },
        Some(HandlerOutcome::Failed(message)) => JsonRpcResponse {
            id: request.id,
            result: None,
            error: Some(JsonRpcError { code: ErrorCode::InternalError.code(), message, data: None }),
            jsonrpc,
        },
        Some(HandlerOutcome::Done(v)) => JsonRpcResponse { id: request.id, result: Some(v), error: None, jsonrpc },
    }
}

/// Ids on one connection strictly increase: a request created after another
/// (the counter never goes back in between) has a larger id, so no id repeats.
pub proof fn lemma_request_ids_increase<S>(
    t0: PendingTable<S>,
    t1: PendingTable<S>,
    id1: u64,
    s1: S,
    t2: PendingTable<S>,
    t3: PendingTable<S>,
    id2: u64,
    s2: S,
)
    requires
        PendingTable::created(t0, t1, id1, s1),
        t1.next() <= t2.next(),
        PendingTable::created(t2, t3, id2, s2),
    ensures
        id1 < id2,
{
}

/// Response correlation: an id names one waiting request at most, so the
/// waiter that `handle_response` hands out together with a response is the
/// one whose request carried the response's id.
pub proof fn lemma_response_correlation<S>(t: PendingTable<S>, a: int, b: int)
    requires
        t.wf(),
        0 <= a < t.entries().len(),
        0 <= b < t.entries().len(),
        t.entries()[a].0 == t.entries()[b].0,
    ensures
        a == b,
{
    if a < b {
        assert(t.entries()[a].0 != t.entries()[b].0);
    } else if b < a {
        assert(t.entries()[b].0 != t.entries()[a].0);
    }
}

/// A waiter is signalled at most once: after its entry is removed, creating
/// further requests never makes its id wait again, so neither a delivery
/// nor a cancellation finds it a second time.
pub proof fn lemma_resolved_stays_resolved<S>(a: PendingTable<S>, b: PendingTable<S>, id: u64, nid: u64, s: S)
    requires
        a.wf(),
        !a.is_pending(id),
        id < a.next(),
        PendingTable::created(a, b, nid, s),
    ensures
        !b.is_pending(id),
        id < b.next(),
{
    if b.is_pending(id) {
        let i = choose|i: int| 0 <= i < b.entries().len() && #[trigger] b.entries()[i].0 == id;
        if i < a.entries().len() {
            assert(a.entries()[i].0 == id);
        }
    }
}

} // verus!

//! One correlated request-and-await cycle, as decisions over the store.
//!
//! The caller drives the cycle: it starts a request, dispatches the notice
//! to the page, reports whether that worked, waits on the receiver, and
//! reports how the wait ended. Each step says what becomes of the store.
use tokio::sync::oneshot::Receiver;
use vstd::prelude::*;

use crate::ident::{fresh_id, id_text, parse_id, uuid_text};
use crate::store::{registered, CorrelationStore};

verus! {

/// Outcomes of a request other than an answer.
#[derive(Clone, Copy, Debug, PartialEq, Eq, Structural)]
pub enum BridgeError {
    /// The channel to the page was not available when the request was sent.
    BridgeNotReady,
    /// No answer came within the configured window.
    RequestTimeout,
    /// The response slot was abandoned without a value.
    ChannelClosed,
    /// The correlation id was already registered.
    DuplicateId,
}

impl BridgeError {
    /// A short description of the error.
    pub fn message(&self) -> (r: String)
        ensures
            *self == BridgeError::BridgeNotReady ==> r@ == "bridge to the page is not ready"@,
            *self == BridgeError::RequestTimeout ==> r@ == "timeout waiting for frontend response"@,
            *self == BridgeError::ChannelClosed ==> r@ == "channel closed unexpectedly"@,
            *self == BridgeError::DuplicateId ==> r@ == "correlation id already registered"@,
    {
        let text = match self {
            BridgeError::BridgeNotReady => "bridge to the page is not ready",
            BridgeError::RequestTimeout => "timeout waiting for frontend response",
            BridgeError::ChannelClosed => "channel closed unexpectedly",
            BridgeError::DuplicateId => "correlation id already registered",
        };
        text.to_string()
    }
}

/// The notice sent to the page: which request, and what it asks about.
#[derive(Debug)]
pub struct RequestPayload {
    pub request_id: String,
    pub topic: String,
}

/// A registered request: its id, the read end of its response slot, and the
/// notice to dispatch to the page.
#[verifier::reject_recursive_types(T)]
pub struct PendingCall<T> {
    pub id: u128,
    pub receiver: Receiver<T>,
    pub payload: RequestPayload,
}

/// How waiting on a response slot ended.
pub enum WaitOutcome<T> {
    /// The page answered with this value.
    Answered(T),
    /// The slot was dropped without a value.
    Closed,
    /// The timeout elapsed first.
    TimedOut,
}

/// What a request returns once its wait has ended.
pub open spec fn wait_result<T>(outcome: WaitOutcome<T>) -> Result<T, BridgeError> {
    match outcome {
        WaitOutcome::Answered(v) => Ok(v),
        WaitOutcome::Closed => Err(BridgeError::ChannelClosed),
        WaitOutcome::TimedOut => Err(BridgeError::RequestTimeout),
    }
}

/// Whether `text` is exactly the hyphenated text of a parsed id.
pub open spec fn names_id(text: Seq<char>, parsed: Option<u128>) -> bool {
    parsed is Some && text == uuid_text(parsed->Some_0)
}

/// Registers a request under `id` about `topic`. Fails with `DuplicateId`,
/// leaving the store unchanged, exactly when `id` is already registered.
pub fn start_request_with_id<T>(store: &mut CorrelationStore<T>, id: u128, topic: &str) -> (r:
    Result<PendingCall<T>, BridgeError>)
    ensures
        r is Err <==> old(store).is_pending(id),
        r is Err ==> (r == Err::<PendingCall<T>, BridgeError>(BridgeError::DuplicateId)
            && final(store)@ == old(store)@),
        r is Ok ==> {
            let c = r->Ok_0;
            &&& c.id == id
            &&& registered(old(store)@, final(store)@, id)
            &&& c.payload.request_id@ == uuid_text(id)
            &&& c.payload.topic@ == topic@
        },
{
    match store.begin(id) {
        None => Err(BridgeError::DuplicateId),
        Some(receiver) => {
            let payload = RequestPayload { request_id: id_text(id), topic: topic.to_string() };
            Ok(PendingCall { id, receiver, payload })
        },
    }
}

/// Registers a request about `topic` under a fresh random id, before any
/// dispatch. On success the new id is registered and nothing else changed;
/// on a collision with a registered id the store is unchanged, so on an
/// empty store this always succeeds.
pub fn start_request<T>(store: &mut CorrelationStore<T>, topic: &str) -> (r: Result<
    PendingCall<T>,
    BridgeError,
>)
    ensures
        r is Err ==> (r == Err::<PendingCall<T>, BridgeError>(BridgeError::DuplicateId)
            && final(store)@ == old(store)@),
        r is Err ==> exists|k: u128| old(store).is_pending(k),
        r is Ok ==> {
            let c = r->Ok_0;
            &&& !old(store).is_pending(c.id)
            &&& registered(old(store)@, final(store)@, c.id)
            &&& c.payload.request_id@ == uuid_text(c.id)
            &&& c.payload.topic@ == topic@
        },
{
    let id = fresh_id();
    start_request_with_id(store, id, topic)
}

/// Settles the dispatch of request `id`: when it could not be sent, the entry
/// is removed again and the request fails with `BridgeNotReady`.
pub fn finish_dispatch<T>(store: &mut CorrelationStore<T>, id: u128, dispatched: bool) -> (r:
    Result<(), BridgeError>)
    ensures
        dispatched ==> (r is Ok && final(store)@ == old(store)@),
        !dispatched ==> (r == Err::<(), BridgeError>(BridgeError::BridgeNotReady)
            && final(store)@ == old(store)@.remove(id)),
{
    if dispatched {
        Ok(())
    } else {
        store.expire(id);
        Err(BridgeError::BridgeNotReady)
    }
}

/// Settles request `id` once its wait has ended: an answer is returned as it
/// came, a timeout or an abandoned slot becomes the matching error. Whatever
/// the outcome, no entry for `id` is left in the store.
pub fn finish_wait<T>(store: &mut CorrelationStore<T>, id: u128, outcome: WaitOutcome<T>) -> (r:
    Result<T, BridgeError>)
    ensures
        r == wait_result(outcome),
        final(store)@ == old(store)@.remove(id),
        !final(store).is_pending(id),
{
    store.expire(id);
    match outcome {
        WaitOutcome::Answered(v) => Ok(v),
        WaitOutcome::Closed => Err(BridgeError::ChannelClosed),
        WaitOutcome::TimedOut => Err(BridgeError::RequestTimeout),
    }
}

/// Delivers `data` to the request named by `request_id`, given what parsing
/// that text gave. Only the exact hyphenated text of a pending id resolves
/// it; any other spelling, an unknown id or a malformed text changes nothing.
/// Returns whether a request was resolved.
pub fn resolve_parsed<T>(
    store: &mut CorrelationStore<T>,
    request_id: &str,
    parsed: Option<u128>,
    data: T,
) -> (r: bool)
    ensures
        r == (names_id(request_id@, parsed) && old(store).is_pending(parsed->Some_0)),
        names_id(request_id@, parsed) ==> final(store)@ == old(store)@.remove(parsed->Some_0),
        !names_id(request_id@, parsed) ==> final(store)@ == old(store)@,
{
    match parsed {
        Some(id) => {
            let text = id_text(id);
            let given = request_id.to_string();
            if text == given {
                store.resolve(id, data)
            } else {
                false
            }
        },
        None => false,
    }
}

/// Handles an answer from the page: the request whose hyphenated id text is
/// exactly `request_id` is resolved with `data` if it is still waiting, and
/// no other entry changes. Unknown, late and malformed ids are ignored, and
/// the call always succeeds.
pub fn resolve_request<T>(store: &mut CorrelationStore<T>, request_id: &str, data: T) -> (r:
    Result<(), String>)
    ensures
        r is Ok,
        forall|id: u128|
            request_id@ == #[trigger] uuid_text(id) ==> final(store)@ == old(store)@.remove(id),
        (forall|id: u128| request_id@ != #[trigger] uuid_text(id)) ==> final(store)@ == old(
            store,
        )@,
{
    let parsed = parse_id(request_id);
    resolve_parsed(store, request_id, parsed, data);
    Ok(())
}

} // verus!

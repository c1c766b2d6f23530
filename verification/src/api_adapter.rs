//! The decisions of the adapter between the API thread and the monitor's event loop: which
//! events carry API requests, and when the adapter keeps the event loop waiting for requests
//! (the receiving, the handling of requests and the replies are done by the caller).

use vstd::prelude::*;

verus! {

/// What an API request means for the adapter's loop.
#[derive(Debug, Clone, Copy, PartialEq, Eq)]
pub enum RequestKind {
    /// A request to pause the microVM.
    Pause,
    /// A request to resume the microVM.
    Resume,
    /// Any other request.
    Other,
}

/// Where the adapter stands between two API requests.
#[derive(Debug, Clone, Copy, PartialEq, Eq)]
pub enum AdapterState {
    /// Requests are handled one per API event; the event loop runs in between.
    Serving,
    /// The microVM was paused: requests are received and handled in a blocking loop, with the
    /// event loop (device emulation included) held, until a resume request.
    Paused,
}

/// What happened when a request was taken from the API channel.
#[derive(Debug, Clone, Copy, PartialEq, Eq)]
pub enum Received {
    /// A request of this kind arrived.
    Request(RequestKind),
    /// The channel held no request.
    Empty,
    /// The sending half of the channel is gone.
    Disconnected,
}

/// What the adapter does next.
#[derive(Debug, Clone, Copy, PartialEq, Eq)]
pub enum AdapterAction {
    /// Handle the request received, then decide with [`after_request`].
    Handle,
    /// Report the event or the empty channel and go back to the event loop.
    Report,
    /// The API thread is gone: stop with a panic.
    Abort,
}

/// Whether an event is an API event: input on the API event descriptor.
pub fn is_api_event(source: i32, api_event_fd: i32, input_only: bool) -> (r: bool)
    ensures
        r == (source == api_event_fd && input_only),
{
    source == api_event_fd && input_only
}

/// The decision on what was taken from the API channel.
pub fn on_received(received: Received) -> (r: AdapterAction)
    ensures
        r == match received {
            Received::Request(_) => AdapterAction::Handle,
            Received::Empty => AdapterAction::Report,
            Received::Disconnected => AdapterAction::Abort,
        },
{
    match received {
        Received::Request(_) => AdapterAction::Handle,
        Received::Empty => AdapterAction::Report,
        Received::Disconnected => AdapterAction::Abort,
    }
}

/// The state after a request of kind `kind` was handled in state `state`: a pause request
/// handled while serving holds the event loop; a resume request handled while paused releases
/// it; any other request leaves the state as it was.
pub open spec fn next_state(state: AdapterState, kind: RequestKind) -> AdapterState {
    match (state, kind) {
        (AdapterState::Serving, RequestKind::Pause) => AdapterState::Paused,
        (AdapterState::Paused, RequestKind::Resume) => AdapterState::Serving,
        _ => state,
    }
}

/// Computes the state after a request of kind `kind` was handled in state `state`.
pub fn after_request(state: AdapterState, kind: RequestKind) -> (r: AdapterState)
    ensures
        r == next_state(state, kind),
{
    match (state, kind) {
        (AdapterState::Serving, RequestKind::Pause) => AdapterState::Paused,
        (AdapterState::Paused, RequestKind::Resume) => AdapterState::Serving,
        _ => state,
    }
}

/// The state after a sequence of requests, starting from `state`.
pub open spec fn state_after(state: AdapterState, kinds: Seq<RequestKind>) -> AdapterState
    decreases kinds.len(),
{
    if kinds.len() == 0 {
        state
    } else {
        state_after(next_state(state, kinds[0]), kinds.drop_first())
    }
}

/// Once paused, the adapter stays paused until a resume request, whatever other requests
/// come: a sequence of requests without a resume request leaves a paused adapter paused.
pub proof fn lemma_paused_until_resume(kinds: Seq<RequestKind>)
    requires
        forall|i: int| 0 <= i < kinds.len() ==> kinds[i] != RequestKind::Resume,
    ensures
        state_after(AdapterState::Paused, kinds) == AdapterState::Paused,
    decreases kinds.len(),
{
    if kinds.len() > 0 {
        assert(kinds[0] != RequestKind::Resume);
        let rest = kinds.drop_first();
        assert forall|i: int| 0 <= i < rest.len() implies rest[i] != RequestKind::Resume by {
            assert(rest[i] == kinds[i + 1]);
        }
        lemma_paused_until_resume(rest);
    }
}

} // verus!

use firecracker::api_adapter::{
    after_request, is_api_event, on_received, AdapterAction, AdapterState, Received, RequestKind,
};

#[test]
fn api_events() {
    assert!(is_api_event(5, 5, true));
    assert!(!is_api_event(5, 5, false));
    assert!(!is_api_event(4, 5, true));
}

#[test]
fn received_requests() {
    assert_eq!(on_received(Received::Request(RequestKind::Other)), AdapterAction::Handle);
    assert_eq!(on_received(Received::Empty), AdapterAction::Report);
    assert_eq!(on_received(Received::Disconnected), AdapterAction::Abort);
}

#[test]
fn pause_holds_until_resume() {
    let mut state = AdapterState::Serving;
    state = after_request(state, RequestKind::Other);
    assert_eq!(state, AdapterState::Serving);
    state = after_request(state, RequestKind::Resume);
    assert_eq!(state, AdapterState::Serving);
    state = after_request(state, RequestKind::Pause);
    assert_eq!(state, AdapterState::Paused);
    for kind in [RequestKind::Other, RequestKind::Pause, RequestKind::Other] {
        state = after_request(state, kind);
        assert_eq!(state, AdapterState::Paused);
    }
    state = after_request(state, RequestKind::Resume);
    assert_eq!(state, AdapterState::Serving);
}

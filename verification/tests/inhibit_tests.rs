use keep_awake::inhibit::{InhibitGuard, InhibitToken, Release, ES_CONTINUOUS};

#[test]
fn execution_state_request_flags() {
    assert_eq!(InhibitGuard::execution_state_request(), 0x8000_0003);
}

#[test]
fn execution_state_reply() {
    assert_eq!(InhibitGuard::from_execution_state(0), None);
    let g = InhibitGuard::from_execution_state(0x8000_0000).unwrap();
    assert_eq!(g.token, InhibitToken::ExecutionState);
    assert_eq!(g.releases(), vec![Release::SetExecutionState(ES_CONTINUOUS)]);
}

#[test]
fn assertion_reply() {
    assert_eq!(InhibitGuard::from_assertion(-536870212, 9), None);
    let g = InhibitGuard::from_assertion(0, 42).unwrap();
    assert_eq!(g.token, InhibitToken::Assertion(42));
    assert_eq!(g.releases(), vec![Release::ReleaseAssertion(42)]);
}

#[test]
fn desktop_replies_both_granted() {
    let (g, undo) = InhibitGuard::from_desktop_replies(Some(17), Some(5));
    let g = g.unwrap();
    assert!(undo.is_empty());
    assert_eq!(g.token, InhibitToken::Desktop { cookie: 17, sleep_lock: 5 });
    assert_eq!(g.releases(), vec![Release::UnInhibit(17), Release::CloseSleepLock(5)]);
}

#[test]
fn desktop_replies_partly_granted_are_undone() {
    assert_eq!(InhibitGuard::from_desktop_replies(Some(17), None), (None, vec![Release::UnInhibit(17)]));
    assert_eq!(InhibitGuard::from_desktop_replies(None, Some(5)), (None, vec![Release::CloseSleepLock(5)]));
    assert_eq!(InhibitGuard::from_desktop_replies(None, None), (None, vec![]));
}

use upload_gateway::remote::{initial_state, step, RemoteEvent, RemoteState};

#[test]
fn a_successful_upload_decides_at_once_without_refresh() {
    let s = initial_state();
    let (next, refresh) = step(s, RemoteEvent::Uploaded { ok: true });
    assert_eq!(next, RemoteState::Done { ok: true });
    assert!(!refresh);
}

#[test]
fn a_missing_handle_fails_the_field_but_still_refreshes() {
    let s = initial_state();
    let (next, refresh) = step(s, RemoteEvent::HandleMissing);
    assert_eq!(next, RemoteState::Done { ok: false });
    assert!(refresh);
}

#[test]
fn an_expired_handle_refreshes_and_retries_once() {
    let s = initial_state();
    let (next, refresh) = step(s, RemoteEvent::HandleExpired);
    assert_eq!(next, RemoteState::Attempting { attempts_left: 1 });
    assert!(refresh);
    let (last, refresh_again) = step(next, RemoteEvent::HandleExpired);
    assert_eq!(last, RemoteState::Done { ok: false });
    assert!(refresh_again);
}

#[test]
fn a_failed_upload_is_retried_and_the_retry_can_succeed() {
    let s = initial_state();
    let (next, refresh) = step(s, RemoteEvent::Uploaded { ok: false });
    assert_eq!(next, RemoteState::Attempting { attempts_left: 1 });
    assert!(refresh);
    let (last, _) = step(next, RemoteEvent::Uploaded { ok: true });
    assert_eq!(last, RemoteState::Done { ok: true });
}

#[test]
fn upload_attempts_never_exceed_two_under_constant_failure() {
    // Drive the protocol as the gateway would against a remote that always
    // fails and a refresh that never helps: count the upload attempts.
    let mut state = initial_state();
    let mut attempts = 0;
    let mut rounds = 0;
    while let RemoteState::Attempting { .. } = state {
        rounds += 1;
        assert!(rounds <= 10, "protocol failed to terminate");
        // The handle is always usable but every upload fails.
        attempts += 1;
        let (next, _) = step(state, RemoteEvent::Uploaded { ok: false });
        state = next;
    }
    assert_eq!(state, RemoteState::Done { ok: false });
    assert_eq!(attempts, 2);
}

#[test]
fn expired_handles_alone_cost_no_upload_attempts() {
    let mut state = initial_state();
    let mut attempts = 0;
    let mut rounds = 0;
    while let RemoteState::Attempting { .. } = state {
        rounds += 1;
        assert!(rounds <= 10, "protocol failed to terminate");
        let (next, refresh) = step(state, RemoteEvent::HandleExpired);
        assert!(refresh);
        state = next;
    }
    assert_eq!(state, RemoteState::Done { ok: false });
    assert_eq!(attempts, 0);
}

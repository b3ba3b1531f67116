//! Whole-request scenarios, driven as the gateway binary drives the
//! library: authentication, boundary detection, one flow per request,
//! one recorded outcome per field, and the rendered response.

use upload_gateway::field::extract_field;
use upload_gateway::outcome::UploadOutcome;
use upload_gateway::remote::{initial_state, step, RemoteEvent, RemoteState};
use upload_gateway::request::{check_auth, detect_boundary, ContentTypeHeader, RequestFlow};

#[test]
fn one_field_succeeding_at_both_sinks_is_a_plain_success() {
    // POST with one field "report.txt" = "hi", correct token, disk
    // writable, remote upload succeeds.
    assert!(check_auth(&Some("password".to_string()), &"password".to_string()).is_none());
    let header = ContentTypeHeader::Value("multipart/form-data; boundary=X".to_string());
    assert_eq!(detect_boundary(header).expect("boundary"), "X");

    let mut flow = RequestFlow::new();
    let field = extract_field(Some("report.txt".to_string()), Some("hi".to_string()))
        .expect("the field parses");
    assert_eq!(field.name, "report.txt");

    // Local write succeeds; the remote protocol succeeds on the first try.
    let (state, refresh) = step(initial_state(), RemoteEvent::Uploaded { ok: true });
    assert_eq!(state, RemoteState::Done { ok: true });
    assert!(!refresh);

    assert!(flow.can_record());
    flow.on_field_outcome(UploadOutcome { local_ok: true, remote_ok: true });

    let r = flow.on_stream_end();
    assert_eq!(r.status, 200);
    assert_eq!(r.message, "File uploaded successfully.");
}

#[test]
fn a_remote_only_failure_still_counts_the_request_as_a_success() {
    // Two fields: the first succeeds at both sinks, the second fails the
    // remote upload only.
    let mut flow = RequestFlow::new();
    flow.on_field_outcome(UploadOutcome { local_ok: true, remote_ok: true });

    // Second field: local write succeeds; both remote attempts fail.
    let (state, _) = step(initial_state(), RemoteEvent::Uploaded { ok: false });
    let (state, _) = step(state, RemoteEvent::Uploaded { ok: false });
    assert_eq!(state, RemoteState::Done { ok: false });
    flow.on_field_outcome(UploadOutcome { local_ok: true, remote_ok: false });

    let r = flow.on_stream_end();
    assert_eq!(r.status, 200);
    assert_eq!(r.message, "1 files uploaded successfully, 1 file upload(s) partially failed");
}

#[test]
fn an_empty_multipart_body_is_a_bad_request() {
    // Zero fields: the stream ends while the first field is mandatory.
    let flow = RequestFlow::new();
    let r = flow.on_stream_end();
    assert_eq!(r.status, 400);
    assert_eq!(r.message, "Failed to read field");
}

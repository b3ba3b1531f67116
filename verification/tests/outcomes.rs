use upload_gateway::outcome::{classify, Bucket, Tally, UploadOutcome};

#[test]
fn classify_both_ok_is_success() {
    let b = classify(UploadOutcome { local_ok: true, remote_ok: true });
    assert_eq!(b, Bucket::Success);
}

#[test]
fn classify_local_only_is_partial() {
    let b = classify(UploadOutcome { local_ok: true, remote_ok: false });
    assert_eq!(b, Bucket::Partial);
}

#[test]
fn classify_remote_only_is_partial() {
    let b = classify(UploadOutcome { local_ok: false, remote_ok: true });
    assert_eq!(b, Bucket::Partial);
}

#[test]
fn classify_neither_is_total() {
    let b = classify(UploadOutcome { local_ok: false, remote_ok: false });
    assert_eq!(b, Bucket::Total);
}

#[test]
fn record_counts_each_bucket_once() {
    let mut t = Tally::new();
    t.record(UploadOutcome { local_ok: true, remote_ok: true });
    t.record(UploadOutcome { local_ok: true, remote_ok: false });
    t.record(UploadOutcome { local_ok: false, remote_ok: true });
    t.record(UploadOutcome { local_ok: false, remote_ok: false });
    assert_eq!(t.success, 1);
    assert_eq!(t.partial, 2);
    assert_eq!(t.total, 1);
}

#[test]
fn success_outcome_never_touches_other_buckets() {
    let mut t = Tally::new();
    for _ in 0..5 {
        t.record(UploadOutcome { local_ok: true, remote_ok: true });
    }
    assert_eq!(t.success, 5);
    assert_eq!(t.partial, 0);
    assert_eq!(t.total, 0);
}

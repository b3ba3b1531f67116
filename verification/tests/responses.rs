use upload_gateway::outcome::Tally;
use upload_gateway::respond::{render, u64_to_string};

fn tally(success: u64, partial: u64, total: u64) -> Tally {
    Tally { success, partial, total }
}

#[test]
fn one_success_gets_singular_wording() {
    let r = render(&tally(1, 0, 0));
    assert_eq!(r.status, 200);
    assert_eq!(r.message, "File uploaded successfully.");
}

#[test]
fn several_successes_get_the_count() {
    let r = render(&tally(3, 0, 0));
    assert_eq!(r.status, 200);
    assert_eq!(r.message, "3 files uploaded successfully.");
}

#[test]
fn successes_and_partials_report_both_counts() {
    let r = render(&tally(1, 1, 0));
    assert_eq!(r.status, 200);
    assert_eq!(r.message, "1 files uploaded successfully, 1 file upload(s) partially failed");
}

#[test]
fn only_totals_report_only_the_total_count() {
    let r = render(&tally(0, 0, 3));
    assert_eq!(r.status, 500);
    assert_eq!(r.message, "3 file upload(s) totally failed");
}

#[test]
fn successes_and_totals_report_both_counts() {
    let r = render(&tally(2, 0, 1));
    assert_eq!(r.status, 500);
    assert_eq!(r.message, "2 file(s) uploaded successfully, 1 file upload(s) totally failed");
}

#[test]
fn partials_and_totals_report_both_counts() {
    let r = render(&tally(0, 2, 1));
    assert_eq!(r.status, 500);
    assert_eq!(r.message, "2 file upload(s) partially failed, 1 file uploads totally failed");
}

#[test]
fn all_three_buckets_report_all_counts() {
    let r = render(&tally(1, 2, 3));
    assert_eq!(r.status, 500);
    assert_eq!(
        r.message,
        "1 file(s) uploaded successfully, 2 file upload(s) partially failed, 3 file upload(s) totally failed"
    );
}

#[test]
fn decimal_formatting_is_exact() {
    assert_eq!(u64_to_string(0), "0");
    assert_eq!(u64_to_string(7), "7");
    assert_eq!(u64_to_string(10), "10");
    assert_eq!(u64_to_string(1234567890), "1234567890");
    assert_eq!(u64_to_string(u64::MAX), "18446744073709551615");
}

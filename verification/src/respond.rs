//! Rendering a finished tally as an HTTP status and message.
//!
//! Once every field of a request has been counted, the tally maps to a
//! response: any totally failed field makes the request a failure
//! (status 500); otherwise the request is a success (status 200), partial
//! failures included. The message names the non-empty buckets with their
//! counts.

use vstd::prelude::*;
use vstd::string::StringExecFns;
use crate::outcome::{
    Bucket, Tally, UploadOutcome, bucket_of, count_in, lemma_count_in_all, lemma_count_in_none,
    lemma_count_in_pos, lemma_tally_of_counts, tally_of,
};

verus! {

/// An HTTP status code with a plain-text body.
#[derive(Debug)]
pub struct Response {
    pub status: u16,
    pub message: String,
}

/// The character for one decimal digit.
pub open spec fn digit_char(d: int) -> char {
    if d == 0 {
        '0'
    } else if d == 1 {
        '1'
    } else if d == 2 {
        '2'
    } else if d == 3 {
        '3'
    } else if d == 4 {
        '4'
    } else if d == 5 {
        '5'
    } else if d == 6 {
        '6'
    } else if d == 7 {
        '7'
    } else if d == 8 {
        '8'
    } else {
        '9'
    }
}

/// The decimal digits of `n`, most significant first.
pub open spec fn dec_str(n: nat) -> Seq<char>
    decreases n,
{
    if n < 10 {
        seq![digit_char(n as int)]
    } else {
        dec_str(n / 10) + seq![digit_char((n % 10) as int)]
    }
}

/// One decimal digit as a string slice.
fn digit_str(d: u64) -> (s: &'static str)
    requires
        d < 10,
    ensures
        s@ == seq![digit_char(d as int)],
{
    let s: &'static str = if d == 0 {
        "0"
    } else if d == 1 {
        "1"
    } else if d == 2 {
        "2"
    } else if d == 3 {
        "3"
    } else if d == 4 {
        "4"
    } else if d == 5 {
        "5"
    } else if d == 6 {
        "6"
    } else if d == 7 {
        "7"
    } else if d == 8 {
        "8"
    } else {
        "9"
    };
    proof {
        reveal_strlit("0");
        reveal_strlit("1");
        reveal_strlit("2");
        reveal_strlit("3");
        reveal_strlit("4");
        reveal_strlit("5");
        reveal_strlit("6");
        reveal_strlit("7");
        reveal_strlit("8");
        reveal_strlit("9");
        assert(s@ =~= seq![digit_char(d as int)]);
    }
    s
}

/// Format a number in decimal.
pub fn u64_to_string(n: u64) -> (s: String)
    ensures
        s@ == dec_str(n as nat),
    decreases n,
{
    if n < 10 {
        String::from_str(digit_str(n))
    } else {
        let prefix = u64_to_string(n / 10);
        prefix.concat(digit_str(n % 10))
    }
}

/// The status of a finished request: failure exactly when some field
/// failed at both sinks.
pub open spec fn response_status(t: Tally) -> u16 {
    if t.total == 0 {
        200
    } else {
        500
    }
}

/// The message of a finished request: the non-empty buckets, each with
/// its count; one fully successful file gets the singular wording.
pub open spec fn response_message(t: Tally) -> Seq<char> {
    if t.total == 0 {
        if t.partial == 0 {
            if t.success == 1 {
                "File uploaded successfully."@
            } else {
                dec_str(t.success as nat) + " files uploaded successfully."@
            }
        } else {
            dec_str(t.success as nat) + " files uploaded successfully, "@ + dec_str(
                t.partial as nat,
            ) + " file upload(s) partially failed"@
        }
    } else {
        if t.success == 0 && t.partial == 0 {
            dec_str(t.total as nat) + " file upload(s) totally failed"@
        } else if t.partial == 0 {
            dec_str(t.success as nat) + " file(s) uploaded successfully, "@ + dec_str(
                t.total as nat,
            ) + " file upload(s) totally failed"@
        } else if t.success == 0 {
            dec_str(t.partial as nat) + " file upload(s) partially failed, "@ + dec_str(
                t.total as nat,
            ) + " file uploads totally failed"@
        } else {
            dec_str(t.success as nat) + " file(s) uploaded successfully, "@ + dec_str(
                t.partial as nat,
            ) + " file upload(s) partially failed, "@ + dec_str(t.total as nat)
                + " file upload(s) totally failed"@
        }
    }
}

/// Map a finished tally to its response.
pub fn render(t: &Tally) -> (r: Response)
    ensures
        r.status == response_status(*t),
        r.status == 200 <==> t.total == 0,
        r.message@ == response_message(*t),
{
    if t.total == 0 {
        if t.partial == 0 {
            if t.success == 1 {
                Response { status: 200, message: String::from_str("File uploaded successfully.") }
            } else {
                let mut m = u64_to_string(t.success);
                m.append(" files uploaded successfully.");
                Response { status: 200, message: m }
            }
        } else {
            let mut m = u64_to_string(t.success);
            m.append(" files uploaded successfully, ");
            let p = u64_to_string(t.partial);
            m.append(p.as_str());
            m.append(" file upload(s) partially failed");
            Response { status: 200, message: m }
        }
    } else {
        if t.success == 0 && t.partial == 0 {
            let mut m = u64_to_string(t.total);
            m.append(" file upload(s) totally failed");
            Response { status: 500, message: m }
        } else if t.partial == 0 {
            let mut m = u64_to_string(t.success);
            m.append(" file(s) uploaded successfully, ");
            let w = u64_to_string(t.total);
            m.append(w.as_str());
            m.append(" file upload(s) totally failed");
            Response { status: 500, message: m }
        } else if t.success == 0 {
            let mut m = u64_to_string(t.partial);
            m.append(" file upload(s) partially failed, ");
            let w = u64_to_string(t.total);
            m.append(w.as_str());
            m.append(" file uploads totally failed");
            Response { status: 500, message: m }
        } else {
            let mut m = u64_to_string(t.success);
            m.append(" file(s) uploaded successfully, ");
            let p = u64_to_string(t.partial);
            m.append(p.as_str());
            m.append(" file upload(s) partially failed, ");
            let w = u64_to_string(t.total);
            m.append(w.as_str());
            m.append(" file upload(s) totally failed");
            Response { status: 500, message: m }
        }
    }
}

/// A request whose every field succeeded at both sinks gets a success
/// status, and its message counts exactly the number of fields.
pub proof fn lemma_all_success_response(outcomes: Seq<UploadOutcome>)
    requires
        0 < outcomes.len() <= u64::MAX,
        forall|i: int| 0 <= i < outcomes.len() ==> bucket_of(#[trigger] outcomes[i])
            == Bucket::Success,
    ensures
        response_status(tally_of(outcomes)) == 200,
        tally_of(outcomes).success == outcomes.len(),
        response_message(tally_of(outcomes)) == if outcomes.len() == 1 {
            "File uploaded successfully."@
        } else {
            dec_str(outcomes.len() as nat) + " files uploaded successfully."@
        },
{
    lemma_tally_of_counts(outcomes);
    lemma_count_in_all(outcomes, Bucket::Success);
    lemma_count_in_none(outcomes, Bucket::Partial);
    lemma_count_in_none(outcomes, Bucket::Total);
}

/// A request whose every field failed at both sinks gets a failure
/// status, and its message reports only the count of total failures.
pub proof fn lemma_all_total_response(outcomes: Seq<UploadOutcome>)
    requires
        0 < outcomes.len() <= u64::MAX,
        forall|i: int| 0 <= i < outcomes.len() ==> bucket_of(#[trigger] outcomes[i])
            == Bucket::Total,
    ensures
        response_status(tally_of(outcomes)) == 500,
        tally_of(outcomes).total == outcomes.len(),
        tally_of(outcomes).success == 0,
        tally_of(outcomes).partial == 0,
        response_message(tally_of(outcomes)) == dec_str(outcomes.len() as nat)
            + " file upload(s) totally failed"@,
{
    lemma_tally_of_counts(outcomes);
    lemma_count_in_all(outcomes, Bucket::Total);
    lemma_count_in_none(outcomes, Bucket::Success);
    lemma_count_in_none(outcomes, Bucket::Partial);
}

/// A request with a mix of fully and partially successful fields, and no
/// total failure, gets a success status, and its message reports both
/// counts.
pub proof fn lemma_mixed_response(outcomes: Seq<UploadOutcome>)
    requires
        outcomes.len() <= u64::MAX,
        forall|i: int| 0 <= i < outcomes.len() ==> bucket_of(#[trigger] outcomes[i])
            != Bucket::Total,
        exists|i: int| 0 <= i < outcomes.len() && bucket_of(#[trigger] outcomes[i])
            == Bucket::Success,
        exists|i: int| 0 <= i < outcomes.len() && bucket_of(#[trigger] outcomes[i])
            == Bucket::Partial,
    ensures
        response_status(tally_of(outcomes)) == 200,
        tally_of(outcomes).total == 0,
        tally_of(outcomes).success > 0,
        tally_of(outcomes).partial > 0,
        response_message(tally_of(outcomes)) == dec_str(tally_of(outcomes).success as nat)
            + " files uploaded successfully, "@ + dec_str(tally_of(outcomes).partial as nat)
            + " file upload(s) partially failed"@,
{
    lemma_tally_of_counts(outcomes);
    lemma_count_in_none(outcomes, Bucket::Total);
    lemma_count_in_pos(outcomes, Bucket::Success);
    lemma_count_in_pos(outcomes, Bucket::Partial);
}

} // verus!

//! Per-field upload outcomes and the three-bucket tally.
//!
//! Every uploaded field is written to two sinks, local disk and the remote
//! drive. The pair of success flags is an [`UploadOutcome`]; it falls into
//! exactly one [`Bucket`], and a request-wide [`Tally`] counts the fields
//! in each bucket.

use vstd::prelude::*;

verus! {

/// The result of writing one field to both sinks.
#[derive(Clone, Copy, PartialEq, Eq, Structural, Debug)]
pub struct UploadOutcome {
    /// The field's bytes were written to a file under the local data folder.
    pub local_ok: bool,
    /// The field's bytes were uploaded to the remote drive.
    pub remote_ok: bool,
}

/// The bucket an outcome is counted in: both sinks succeeded, exactly one
/// did, or neither did.
#[derive(Clone, Copy, PartialEq, Eq, Structural, Debug)]
pub enum Bucket {
    Success,
    Partial,
    Total,
}

/// The bucket an outcome belongs to.
pub open spec fn bucket_of(o: UploadOutcome) -> Bucket {
    if o.local_ok && o.remote_ok {
        Bucket::Success
    } else if o.local_ok || o.remote_ok {
        Bucket::Partial
    } else {
        Bucket::Total
    }
}

/// Classify one outcome into its bucket.
pub fn classify(o: UploadOutcome) -> (b: Bucket)
    ensures
        b == bucket_of(o),
        b == Bucket::Success <==> o.local_ok && o.remote_ok,
        b == Bucket::Partial <==> (o.local_ok != o.remote_ok),
        b == Bucket::Total <==> !o.local_ok && !o.remote_ok,
{
    if o.local_ok && o.remote_ok {
        Bucket::Success
    } else if o.local_ok || o.remote_ok {
        Bucket::Partial
    } else {
        Bucket::Total
    }
}

/// Per-request counts of fields in each bucket.
#[derive(Clone, Copy, PartialEq, Eq, Structural, Debug)]
pub struct Tally {
    pub success: u64,
    pub partial: u64,
    pub total: u64,
}

/// The number of fields counted so far.
pub open spec fn tallied(t: Tally) -> int {
    t.success + t.partial + t.total
}

/// The tally after counting one more outcome.
pub open spec fn spec_record(t: Tally, o: UploadOutcome) -> Tally {
    match bucket_of(o) {
        Bucket::Success => Tally { success: (t.success + 1) as u64, ..t },
        Bucket::Partial => Tally { partial: (t.partial + 1) as u64, ..t },
        Bucket::Total => Tally { total: (t.total + 1) as u64, ..t },
    }
}

/// The tally of a whole sequence of outcomes, counted in order.
pub open spec fn tally_of(outcomes: Seq<UploadOutcome>) -> Tally
    decreases outcomes.len(),
{
    if outcomes.len() == 0 {
        Tally { success: 0, partial: 0, total: 0 }
    } else {
        spec_record(tally_of(outcomes.drop_last()), outcomes.last())
    }
}

impl Tally {
    /// A tally with nothing counted yet.
    pub fn new() -> (t: Tally)
        ensures
            t == (Tally { success: 0u64, partial: 0u64, total: 0u64 }),
    {
        Tally { success: 0, partial: 0, total: 0 }
    }

    /// Count one outcome in the bucket it belongs to; the other two
    /// buckets are untouched.
    pub fn record(&mut self, o: UploadOutcome)
        requires
            tallied(*old(self)) < u64::MAX,
        ensures
            *final(self) == spec_record(*old(self), o),
            tallied(*final(self)) == tallied(*old(self)) + 1,
    {
        match classify(o) {
            Bucket::Success => self.success = self.success + 1,
            Bucket::Partial => self.partial = self.partial + 1,
            Bucket::Total => self.total = self.total + 1,
        }
    }
}

/// Counting outcomes one by one, as [`Tally::record`] does, computes the
/// tally of the whole sequence: the driver that records each field's
/// outcome in order ends the request with `tally_of` of all of them.
pub proof fn lemma_tally_of_push(outcomes: Seq<UploadOutcome>, o: UploadOutcome)
    ensures
        tally_of(outcomes.push(o)) == spec_record(tally_of(outcomes), o),
{
    assert(outcomes.push(o).drop_last() =~= outcomes);
}

/// How many outcomes of a sequence fall into one bucket.
pub open spec fn count_in(outcomes: Seq<UploadOutcome>, b: Bucket) -> int
    decreases outcomes.len(),
{
    if outcomes.len() == 0 {
        0
    } else {
        count_in(outcomes.drop_last(), b) + if bucket_of(outcomes.last()) == b {
            1int
        } else {
            0int
        }
    }
}

pub proof fn lemma_count_in_bounds(outcomes: Seq<UploadOutcome>, b: Bucket)
    ensures
        0 <= count_in(outcomes, b) <= outcomes.len(),
    decreases outcomes.len(),
{
    if outcomes.len() > 0 {
        lemma_count_in_bounds(outcomes.drop_last(), b);
    }
}

/// The tally of a sequence of outcomes counts, bucket by bucket, exactly
/// the outcomes that fall into that bucket, and in all counts every
/// outcome exactly once.
pub proof fn lemma_tally_of_counts(outcomes: Seq<UploadOutcome>)
    requires
        outcomes.len() <= u64::MAX,
    ensures
        tally_of(outcomes).success == count_in(outcomes, Bucket::Success),
        tally_of(outcomes).partial == count_in(outcomes, Bucket::Partial),
        tally_of(outcomes).total == count_in(outcomes, Bucket::Total),
        tallied(tally_of(outcomes)) == outcomes.len(),
    decreases outcomes.len(),
{
    if outcomes.len() > 0 {
        lemma_tally_of_counts(outcomes.drop_last());
        lemma_count_in_bounds(outcomes.drop_last(), Bucket::Success);
        lemma_count_in_bounds(outcomes.drop_last(), Bucket::Partial);
        lemma_count_in_bounds(outcomes.drop_last(), Bucket::Total);
    }
}

/// When every outcome falls into bucket `b`, that bucket counts them all.
pub proof fn lemma_count_in_all(outcomes: Seq<UploadOutcome>, b: Bucket)
    requires
        forall|i: int| 0 <= i < outcomes.len() ==> bucket_of(#[trigger] outcomes[i]) == b,
    ensures
        count_in(outcomes, b) == outcomes.len(),
    decreases outcomes.len(),
{
    if outcomes.len() > 0 {
        lemma_count_in_all(outcomes.drop_last(), b);
    }
}

/// When no outcome falls into bucket `b`, its count is zero.
pub proof fn lemma_count_in_none(outcomes: Seq<UploadOutcome>, b: Bucket)
    requires
        forall|i: int| 0 <= i < outcomes.len() ==> bucket_of(#[trigger] outcomes[i]) != b,
    ensures
        count_in(outcomes, b) == 0,
    decreases outcomes.len(),
{
    if outcomes.len() > 0 {
        lemma_count_in_none(outcomes.drop_last(), b);
    }
}

/// When at least one outcome falls into bucket `b`, its count is positive.
pub proof fn lemma_count_in_pos(outcomes: Seq<UploadOutcome>, b: Bucket)
    requires
        exists|i: int| 0 <= i < outcomes.len() && bucket_of(#[trigger] outcomes[i]) == b,
    ensures
        count_in(outcomes, b) > 0,
    decreases outcomes.len(),
{
    let k = choose|i: int| 0 <= i < outcomes.len() && bucket_of(#[trigger] outcomes[i]) == b;
    if k == outcomes.len() - 1 {
        lemma_count_in_bounds(outcomes.drop_last(), b);
    } else {
        assert(bucket_of(outcomes.drop_last()[k]) == b);
        lemma_count_in_pos(outcomes.drop_last(), b);
    }
}

/// A fully successful outcome is counted in `success` and in no other
/// bucket, whatever tally it is added to.
pub proof fn lemma_success_counts_as_success(t: Tally, o: UploadOutcome)
    requires
        o.local_ok,
        o.remote_ok,
        t.success < u64::MAX,
    ensures
        bucket_of(o) == Bucket::Success,
        spec_record(t, o).success == t.success + 1,
        spec_record(t, o).partial == t.partial,
        spec_record(t, o).total == t.total,
{
}

} // verus!

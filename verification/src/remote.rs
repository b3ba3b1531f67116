//! The bounded credential-refresh retry protocol for the remote sink.
//!
//! One shared credential handle authorizes uploads to the remote drive; it
//! may be absent (an earlier authentication failed), expired, or usable.
//! Per field the protocol allows at most two upload attempts: reading the
//! handle, attempting the upload when the handle is usable, and refreshing
//! the credential store before a retry or before giving up. The driver
//! performs the reads, uploads and refreshes and feeds what it observed
//! into [`step`]; this module decides what happens next, and proves that
//! no run of the protocol makes more upload attempts than the state's
//! budget — two from the initial state, however many refreshes fail.

use vstd::prelude::*;

verus! {

/// Where the protocol stands for the current field.
#[derive(Clone, Copy, PartialEq, Eq, Structural, Debug)]
pub enum RemoteState {
    /// The remote write is still undecided; `attempts_left` upload
    /// attempts may still be made.
    Attempting { attempts_left: u8 },
    /// The remote write is decided.
    Done { ok: bool },
}

/// What the driver observed in one round: the credential handle held an
/// error, the handle was expired, or the handle was usable and one upload
/// was attempted with the given result.
#[derive(Clone, Copy, PartialEq, Eq, Structural, Debug)]
pub enum RemoteEvent {
    HandleMissing,
    HandleExpired,
    Uploaded { ok: bool },
}

/// A state the protocol can actually be in: while undecided, at least one
/// attempt is left.
pub open spec fn state_wf(s: RemoteState) -> bool {
    match s {
        RemoteState::Attempting { attempts_left } => attempts_left >= 1,
        RemoteState::Done { .. } => true,
    }
}

/// How many upload attempts a state still allows.
pub open spec fn attempt_budget(s: RemoteState) -> int {
    match s {
        RemoteState::Attempting { attempts_left } => attempts_left as int,
        RemoteState::Done { .. } => 0,
    }
}

/// One transition of the protocol: the next state, and whether the
/// credential store is refreshed now.
///
/// A successful upload decides the write with no refresh. A missing
/// handle decides it against the field at once — the current field is not
/// retried — but the store is still refreshed for the benefit of later
/// requests. An expired handle or a failed upload costs an attempt and is
/// followed by a refresh; when no attempt is left, the write is decided
/// against the field.
pub open spec fn spec_step(s: RemoteState, e: RemoteEvent) -> (RemoteState, bool) {
    match s {
        RemoteState::Done { .. } => (s, false),
        RemoteState::Attempting { attempts_left } => match e {
            RemoteEvent::HandleMissing => (RemoteState::Done { ok: false }, true),
            RemoteEvent::Uploaded { ok: true } => (RemoteState::Done { ok: true }, false),
            RemoteEvent::HandleExpired | RemoteEvent::Uploaded { ok: false } => if attempts_left
                > 1 {
                (RemoteState::Attempting { attempts_left: (attempts_left - 1) as u8 }, true)
            } else {
                (RemoteState::Done { ok: false }, true)
            },
        },
    }
}

/// The state the protocol starts in for each field: two attempts allowed.
pub fn initial_state() -> (s: RemoteState)
    ensures
        s == (RemoteState::Attempting { attempts_left: 2u8 }),
        state_wf(s),
        attempt_budget(s) == 2,
{
    RemoteState::Attempting { attempts_left: 2 }
}

/// Advance the protocol by one observation. Returns the next state and
/// whether the driver must refresh the credential store now.
pub fn step(s: RemoteState, e: RemoteEvent) -> (r: (RemoteState, bool))
    ensures
        r == spec_step(s, e),
        state_wf(s) ==> state_wf(r.0),
        attempt_budget(r.0) <= attempt_budget(s),
        e matches RemoteEvent::Uploaded { ok: true } && s is Attempting ==> r.0 == (
        RemoteState::Done { ok: true }),
        s is Attempting && !(e matches RemoteEvent::Uploaded { ok: true }) ==> r.1,
{
    match s {
        RemoteState::Done { .. } => (s, false),
        RemoteState::Attempting { attempts_left } => match e {
            RemoteEvent::HandleMissing => (RemoteState::Done { ok: false }, true),
            RemoteEvent::Uploaded { ok: true } => (RemoteState::Done { ok: true }, false),
            RemoteEvent::HandleExpired | RemoteEvent::Uploaded { ok: false } => if attempts_left
                > 1 {
                (RemoteState::Attempting { attempts_left: attempts_left - 1 }, true)
            } else {
                (RemoteState::Done { ok: false }, true)
            },
        },
    }
}

/// The state after consuming a whole run of observations; once the write
/// is decided, later observations change nothing.
pub open spec fn run_steps(s: RemoteState, events: Seq<RemoteEvent>) -> RemoteState
    decreases events.len(),
{
    if events.len() == 0 || s is Done {
        s
    } else {
        run_steps(spec_step(s, events[0]).0, events.drop_first())
    }
}

/// How many upload attempts a run of observations makes before the write
/// is decided.
pub open spec fn uploads_made(s: RemoteState, events: Seq<RemoteEvent>) -> int
    decreases events.len(),
{
    if events.len() == 0 || s is Done {
        0
    } else {
        (if events[0] is Uploaded {
            1int
        } else {
            0int
        }) + uploads_made(spec_step(s, events[0]).0, events.drop_first())
    }
}

/// However the credential reads, uploads and refreshes turn out, a run of
/// the protocol never makes more upload attempts than the starting
/// state's budget.
pub proof fn lemma_uploads_bounded(s: RemoteState, events: Seq<RemoteEvent>)
    requires
        state_wf(s),
    ensures
        uploads_made(s, events) <= attempt_budget(s),
    decreases events.len(),
{
    if events.len() > 0 && !(s is Done) {
        lemma_uploads_bounded(spec_step(s, events[0]).0, events.drop_first());
    }
}

/// Per field, the remote write makes at most two upload attempts,
/// whatever the driver observes — in particular however many consecutive
/// refreshes fail.
pub proof fn lemma_at_most_two_uploads(events: Seq<RemoteEvent>)
    ensures
        uploads_made(RemoteState::Attempting { attempts_left: 2u8 }, events) <= 2,
{
    lemma_uploads_bounded(RemoteState::Attempting { attempts_left: 2u8 }, events);
}

} // verus!

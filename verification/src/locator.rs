//! The device locator's decision logic: validating a persisted selector
//! and choosing the winning candidate during full discovery.
//!
//! The surrounding process does the I/O — it opens the candidate device
//! nodes, polls them for frames within the discovery window, and persists
//! the winner's identifier.  What it hands this module is plain data: the
//! frame a validation read produced, or the sequence of complete frames the
//! poll observed, each tagged with the candidate it came from.

use vstd::prelude::*;
use crate::frame::Frame;
use crate::frame::is_signature_frame;

verus! {

/// One complete frame observed during the discovery poll, tagged with the
/// index of the candidate stream that produced it.  Candidates that
/// produced nothing within the window simply contribute no event.
#[derive(Clone, Copy, PartialEq, Eq, Structural, Debug)]
pub struct PollEvent {
    pub candidate: usize,
    pub frame: Frame,
}

/// How locate proceeds after the persisted-selector check: reuse the
/// persisted device on the fast path, or fall back to full discovery.
#[derive(Clone, Copy, PartialEq, Eq, Structural, Debug)]
pub enum LocatePlan {
    FastPath,
    FullDiscovery,
}

/// The winner among a sequence of observed events: the candidate of the
/// first event whose frame is the dial's signature, if any event matches.
pub open spec fn discovery_winner(events: Seq<PollEvent>) -> Option<usize>
    decreases events.len(),
{
    if events.len() == 0 {
        None
    } else if is_signature_frame(events[0].frame) {
        Some(events[0].candidate)
    } else {
        discovery_winner(events.drop_first())
    }
}

/// Whether any observed event carries the dial's signature frame.
pub open spec fn has_signature_event(events: Seq<PollEvent>) -> bool {
    exists|i: int| 0 <= i < events.len() && is_signature_frame(events[i].frame)
}

/// Law: the poll produces a winner exactly when some event within the
/// window carried the signature frame; with no matching event the window
/// elapses into a "not found" outcome rather than a pick.
pub proof fn lemma_winner_iff_signature(events: Seq<PollEvent>)
    ensures
        discovery_winner(events) is Some <==> has_signature_event(events),
    decreases events.len(),
{
    if events.len() == 0 {
    } else if is_signature_frame(events[0].frame) {
    } else {
        lemma_winner_iff_signature(events.drop_first());
        assert forall|i: int| 0 <= i < events.len() && is_signature_frame(events[i].frame) implies
            has_signature_event(events.drop_first()) by {
            assert(events.drop_first()[i - 1] == events[i]);
        }
        if has_signature_event(events.drop_first()) {
            let i = choose|i: int|
                0 <= i < events.drop_first().len() && is_signature_frame(
                    events.drop_first()[i].frame,
                );
            assert(events[i + 1] == events.drop_first()[i]);
        }
    }
}

/// Law: when exactly one candidate's events carry the signature frame —
/// every matching event within the window came from candidate `c`, and at
/// least one did — discovery selects exactly that candidate.
pub proof fn lemma_unique_emitter_wins(events: Seq<PollEvent>, c: usize)
    requires
        has_signature_event(events),
        forall|i: int|
            0 <= i < events.len() && is_signature_frame(events[i].frame) ==> events[i].candidate
                == c,
    ensures
        discovery_winner(events) == Some(c),
    decreases events.len(),
{
    if is_signature_frame(events[0].frame) {
    } else {
        let rest = events.drop_first();
        let i = choose|i: int| 0 <= i < events.len() && is_signature_frame(events[i].frame);
        assert(rest[i - 1] == events[i]);
        assert forall|j: int| 0 <= j < rest.len() && is_signature_frame(rest[j].frame) implies
            rest[j].candidate == c by {
            assert(rest[j] == events[j + 1]);
        }
        lemma_unique_emitter_wins(rest, c);
    }
}

/// Runs the discovery decision over the events the poll observed within
/// the window, in the order they arrived: returns the candidate index of
/// the first signature frame, or `None` when the window elapsed with no
/// match — the retryable "not found" outcome.
pub fn run_discovery(events: &Vec<PollEvent>) -> (r: Option<usize>)
    ensures
        r == discovery_winner(events@),
        r is Some <==> has_signature_event(events@),
{
    let mut i: usize = 0;
    proof {
        assert(events@.skip(0) =~= events@);
    }
    while i < events.len()
        invariant
            i <= events.len(),
            forall|k: int| 0 <= k < i ==> !is_signature_frame(events@[k].frame),
            discovery_winner(events@) == discovery_winner(events@.skip(i as int)),
        decreases events.len() - i,
    {
        let ev = events[i];
        proof {
            assert(events@.skip(i as int)[0] == events@[i as int]);
        }
        if ev.frame.is_signature() {
            proof {
                lemma_winner_iff_signature(events@);
            }
            return Some(ev.candidate);
        }
        proof {
            assert(events@.skip(i as int).drop_first() =~= events@.skip(i + 1));
        }
        i = i + 1;
    }
    proof {
        assert(events@.skip(events@.len() as int) =~= Seq::<PollEvent>::empty());
        lemma_winner_iff_signature(events@);
    }
    None
}

/// Decides how locate proceeds after checking the persisted selector.
/// `validation` is what the fast-path attempt produced: `None` when the
/// persisted device could not be opened or read, otherwise the one frame
/// the validation read returned.  Only a signature frame accepts the
/// persisted device; a stale selector — wrong opcode or malformed shape —
/// falls back to full discovery.
pub fn plan_after_validation(validation: Option<Frame>) -> (r: LocatePlan)
    ensures
        r == LocatePlan::FastPath <==> (validation is Some && is_signature_frame(
            validation->Some_0,
        )),
        r == LocatePlan::FastPath || r == LocatePlan::FullDiscovery,
{
    match validation {
        Option::Some(f) => if f.is_signature() {
            LocatePlan::FastPath
        } else {
            LocatePlan::FullDiscovery
        },
        Option::None => LocatePlan::FullDiscovery,
    }
}

} // verus!

//! Pollable handles for asynchronous work.
//!
//! A handle owns the eventual outcome of one in-flight operation: either a typed
//! success payload or an error message.  The handle is polled, never blocked on:
//! `try_take` returns `None` while the work is outstanding and yields the outcome
//! once, the first time it is called after completion.  The ghost `delivered` flag
//! records whether the outcome has been taken, so callers can be held to polling a
//! handle only until it delivers.

use vstd::prelude::*;

verus! {

/// Declares std's channel receiver so a handle can hold one; Verus treats a value
/// of this type as opaque.
#[verifier::external_type_specification]
#[verifier::external_body]
#[verifier::reject_recursive_types(T)]
pub struct ExReceiver<T>(std::sync::mpsc::Receiver<T>);

/// Relies on std::sync::mpsc::Receiver::try_recv: it returns a message only once
/// the sending side has published one that has not been received yet.  Whether the
/// work has finished depends on scheduling, so nothing is promised of the outcome.
#[verifier::external_body]
fn poll_receiver<T>(rx: &std::sync::mpsc::Receiver<T>) -> Option<T> {
    match rx.try_recv() {
        Ok(v) => Some(v),
        Err(_) => None,
    }
}

/// One observation of a handle, at the specification level: either nothing was
/// ready and the delivered flag is unchanged, or the outcome was yielded and the
/// handle counts as delivered from then on.
pub open spec fn take_step(pre_delivered: bool, post_delivered: bool, yielded: bool) -> bool {
    if yielded {
        !pre_delivered && post_delivered
    } else {
        post_delivered == pre_delivered
    }
}

/// A task handle that can be polled for completion, backed by a one-shot use of a
/// channel: the spawned work sends its outcome once, and the handle receives it.
#[verifier::reject_recursive_types(T)]
pub struct ChannelTaskHandle<T> {
    rx: std::sync::mpsc::Receiver<Result<T, String>>,
    taken: Ghost<bool>,
}

impl<T> ChannelTaskHandle<T> {
    /// Whether this handle has already yielded its outcome.
    pub closed spec fn delivered(self) -> bool {
        self.taken@
    }

    /// Wrap the receiving end of a channel whose sending end was handed to freshly
    /// spawned work.  The new handle has not delivered anything yet.
    pub fn from_receiver(rx: std::sync::mpsc::Receiver<Result<T, String>>) -> (h: Self)
        ensures
            !h.delivered(),
    {
        ChannelTaskHandle { rx, taken: Ghost(false) }
    }

    /// Check if the task has completed and return the result if so.
    ///
    /// Completion depends on scheduling, so no outcome is promised; but every call
    /// is one `take_step`, and a handle that yielded nothing is unchanged.
    pub fn try_take(&mut self) -> (r: Option<Result<T, String>>)
        requires
            !old(self).delivered(),
        ensures
            take_step(old(self).delivered(), final(self).delivered(), r is Some),
            r is None ==> *final(self) == *old(self),
    {
        let r = poll_receiver(&self.rx);
        if r.is_some() {
            self.taken = Ghost(true);
        }
        r
    }
}

/// How many observations in a run yielded an outcome.
pub open spec fn count_yields(yields: Seq<bool>) -> int
    decreases yields.len(),
{
    if yields.len() == 0 {
        0
    } else {
        count_yields(yields.drop_last()) + if yields.last() {
            1int
        } else {
            0int
        }
    }
}

/// Exactly-once delivery: along any run of polls of one handle, `try_take` yields
/// `None` any number of times and an outcome at most once, never twice.  (That the
/// outcome eventually arrives is a liveness claim; no completion latency is
/// promised, so it is not stated.)  `states` are the delivered flags between the
/// observations, starting at a fresh handle.
pub proof fn lemma_exactly_once(states: Seq<bool>, yields: Seq<bool>)
    requires
        states.len() == yields.len() + 1,
        !states[0],
        forall|i: int| 0 <= i < yields.len() ==> take_step(states[i], states[i + 1], yields[i]),
    ensures
        count_yields(yields) == if states.last() {
            1int
        } else {
            0int
        },
        count_yields(yields) <= 1,
    decreases yields.len(),
{
    if yields.len() == 0 {
    } else {
        lemma_exactly_once(states.drop_last(), yields.drop_last());
        assert(take_step(states[states.len() - 2], states[states.len() - 1], yields.last()));
        assert(states.drop_last().last() == states[states.len() - 2]);
    }
}

} // verus!

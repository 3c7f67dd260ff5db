//! The registry's guarantees, stated and proved once over an abstract view of a
//! single slot, and over the drain predicates of `dispatch`.
//!
//! Per operation key, the exec functions realise exactly these transitions: a
//! trigger (`fetch_node_info`, `send_onchain`, ...) changes nothing and fires only
//! when its gate holds and the slot is free; an install (`install_node_info`, ...)
//! demands a free slot, occupies it and counts one launch; a drain pass
//! (`poll_tasks`) keeps or clears slots and never touches a spawn count.

use vstd::prelude::*;
use crate::dispatch::{failure_applied, tasks_drained};
use crate::state::{AppState, AsyncTasks, OpKey, SlotObs, SlotStep, lemma_any_occupied_exists,
    same_caches, same_connection, same_dialogs, same_nav, same_results, slot_next, slot_obs};

verus! {

/// A run of a slot: each adjacent pair of states is one transition.
pub open spec fn valid_run(states: Seq<SlotObs>, steps: Seq<SlotStep>) -> bool {
    &&& states.len() == steps.len() + 1
    &&& forall|i: int| 0 <= i < steps.len() ==> slot_next(states[i], #[trigger] steps[i], states[i + 1])
}

/// Whether a step is a drain that cleared the slot.
pub open spec fn is_clearing_drain(step: SlotStep) -> bool {
    step matches SlotStep::Drain { cleared } && cleared
}

pub open spec fn no_clearing_drain(steps: Seq<SlotStep>) -> bool {
    forall|i: int| 0 <= i < steps.len() ==> !is_clearing_drain(#[trigger] steps[i])
}

/// Single-flight invariant: as long as no completed outcome is drained, a slot's
/// spawn count can rise at most once, and not at all while the slot is occupied;
/// a slot that launched stays occupied.  Triggering any number of times changes
/// nothing once the slot is occupied.
pub proof fn lemma_single_flight(states: Seq<SlotObs>, steps: Seq<SlotStep>)
    requires
        valid_run(states, steps),
        no_clearing_drain(steps),
    ensures
        states[0].occupied ==> states.last() == states[0],
        !states[0].occupied ==> (states.last() == states[0] || (states.last().occupied
            && states.last().spawns == states[0].spawns + 1)),
    decreases steps.len(),
{
    if steps.len() > 0 {
        lemma_single_flight(states.drop_last(), steps.drop_last());
        assert(slot_next(states[states.len() - 2], steps.last(), states.last()));
        assert(states.drop_last().last() == states[states.len() - 2]);
        assert(states.drop_last()[0] == states[0]);
    }
}

/// The exact shape of the single-flight scenario: with a free slot, a first
/// trigger fires, its handle is installed, and a second trigger before any drain
/// declines; exactly one launch has happened.
pub proof fn lemma_trigger_twice_one_spawn(
    s0: SlotObs,
    s1: SlotObs,
    s2: SlotObs,
    s3: SlotObs,
    gate1: bool,
    fired1: bool,
    gate2: bool,
    fired2: bool,
)
    requires
        !s0.occupied,
        gate1,
        slot_next(s0, SlotStep::Trigger { gate: gate1, fired: fired1 }, s1),
        slot_next(s1, SlotStep::Install, s2),
        slot_next(s2, SlotStep::Trigger { gate: gate2, fired: fired2 }, s3),
    ensures
        fired1,
        !fired2,
        s3.spawns == s0.spawns + 1,
{
}

/// Slot reuse: the guard is not permanently latched.  After a drain clears the
/// slot, a trigger whose gate holds fires again.
pub proof fn lemma_slot_reuse(s0: SlotObs, s1: SlotObs, s2: SlotObs, gate: bool, fired: bool)
    requires
        slot_next(s0, SlotStep::Drain { cleared: true }, s1),
        slot_next(s1, SlotStep::Trigger { gate, fired }, s2),
    ensures
        fired == gate,
{
}

/// What a drain pass is, per key: one `Drain` step of the slot machine, clearing
/// exactly the slots whose outcome was taken.
pub proof fn lemma_drain_pass_steps(pre: AsyncTasks, post: AsyncTasks)
    requires
        tasks_drained(pre, post),
    ensures
        forall|k: OpKey|
            slot_next(
                slot_obs(pre, k),
                SlotStep::Drain { cleared: pre.occupied(k) && !post.occupied(k) },
                #[trigger] slot_obs(post, k),
            ),
{
    assert forall|k: OpKey|
        slot_next(
            slot_obs(pre, k),
            SlotStep::Drain { cleared: pre.occupied(k) && !post.occupied(k) },
            #[trigger] slot_obs(post, k),
        ) by {
        lemma_tasks_drained_occupancy(pre, post, k);
    }
}

/// Per key, a drained registry kept or cleared the slot and the spawn count is
/// untouched.
proof fn lemma_tasks_drained_occupancy(pre: AsyncTasks, post: AsyncTasks, k: OpKey)
    requires
        tasks_drained(pre, post),
    ensures
        post.occupied(k) ==> pre.occupied(k),
        post.spawns(k) == pre.spawns(k),
{
}

/// Error isolation: a failing operation, once its slot was cleared by the drain,
/// replaces only the status message.  Every slot, every spawn count, every cached
/// response, every remembered result and every form is exactly as it was: a
/// failure on one key cannot corrupt work outstanding on another.
pub proof fn lemma_error_isolation(pre: AppState, e: String, post: AppState)
    requires
        failure_applied(pre, e, post),
    ensures
        post.tasks == pre.tasks,
        forall|k: OpKey| #[trigger] post.tasks.occupied(k) == pre.tasks.occupied(k),
        forall|k: OpKey| #[trigger] post.tasks.spawns(k) == pre.tasks.spawns(k),
        same_caches(post, pre),
        same_results(post, pre),
        same_connection(post, pre),
        same_nav(post, pre),
        same_dialogs(post, pre),
        post.forms == pre.forms,
        post.status_message matches Some(m) && m.is_error && m.text == e,
{
}

/// Pending-signal correctness: the "schedule another poll soon" signal that a
/// drain pass reports is true exactly when some key's slot is still occupied after
/// the pass.
pub proof fn lemma_pending_signal(t: AsyncTasks, pending: bool)
    requires
        pending == t.any_occupied(),
    ensures
        pending <==> exists|k: OpKey| t.occupied(k),
{
    lemma_any_occupied_exists(t);
}

} // verus!

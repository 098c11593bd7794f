//! Manual control of a project: pause and resume it, or hold it with a
//! reason and release the hold. A paused project's ticks make no progress
//! (see `failure::prepare_tick`).
use vstd::prelude::*;

use crate::types::{ManagedProjectState, StateModel};

verus! {

/// The state with the pause switch and the hold reason set.
pub open spec fn with_pause(m: StateModel, paused: bool, reason: Seq<char>) -> StateModel {
    StateModel { paused, manual_hold_reason: reason, ..m }
}

/// Pauses the project; a hold reason stays as it was.
pub fn pause_project(state: &mut ManagedProjectState)
    ensures
        final(state)@ == with_pause(old(state)@, true, old(state)@.manual_hold_reason),
{
    state.paused = true;
}

/// Lets the project run again; a hold reason stays as it was.
pub fn resume_project(state: &mut ManagedProjectState)
    ensures
        final(state)@ == with_pause(old(state)@, false, old(state)@.manual_hold_reason),
{
    state.paused = false;
}

/// Holds the project for a person, with the reason given.
pub fn hold_project(state: &mut ManagedProjectState, reason: String)
    ensures
        final(state)@ == with_pause(old(state)@, true, reason@),
{
    state.paused = true;
    state.manual_hold_reason = reason;
}

/// Releases a hold: the project runs again and the reason is cleared.
pub fn unhold_project(state: &mut ManagedProjectState)
    ensures
        final(state)@ == with_pause(old(state)@, false, Seq::empty()),
{
    state.paused = false;
    state.manual_hold_reason = String::new();
}

/// Holding and then releasing leaves the project as it was, except that
/// it runs and has no hold reason; pausing changes nothing else.
pub proof fn lemma_hold_then_unhold(m: StateModel, reason: Seq<char>)
    ensures
        with_pause(with_pause(m, true, reason), false, Seq::empty()) == with_pause(
            m,
            false,
            Seq::empty(),
        ),
        with_pause(m, true, m.manual_hold_reason).stage == m.stage,
        with_pause(m, true, m.manual_hold_reason).loop_iteration == m.loop_iteration,
{
}

/// Pausing, resuming, holding and releasing set the pause switch and the
/// hold reason and touch nothing else of the project.
pub proof fn lemma_pause_sets_only_the_switch(m: StateModel, paused: bool, reason: Seq<char>)
    ensures
        with_pause(m, paused, reason).paused == paused,
        with_pause(m, paused, reason).manual_hold_reason == reason,
        (StateModel { paused: m.paused, manual_hold_reason: m.manual_hold_reason, ..with_pause(m, paused, reason) }) == m,
{
}

} // verus!

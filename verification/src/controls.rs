//! The pause control of the simulation.

use vstd::prelude::*;

verus! {

/// Whether position integration is frozen. Velocities are still recomputed
/// while this is set; only the integration step looks at it.
#[derive(Debug, Clone, Copy)]
pub struct Paused(pub bool);

impl Default for Paused {
    /// A simulation starts running.
    fn default() -> (p: Self)
        ensures
            !p.0,
    {
        Paused(false)
    }
}

/// Marker for the indicator that shows a point's velocity.
#[derive(Debug, Clone, Copy)]
pub struct VelocityVector;

/// The pause flag after one input event: flipped when the toggle was pressed
/// in this event, kept otherwise.
pub open spec fn toggled(paused: Paused, just_pressed: bool) -> Paused {
    if just_pressed {
        Paused(!paused.0)
    } else {
        paused
    }
}

/// The pause flag after a run of input events, oldest first.
pub open spec fn toggled_all(paused: Paused, events: Seq<bool>) -> Paused
    decreases events.len(),
{
    if events.len() == 0 {
        paused
    } else {
        toggled(toggled_all(paused, events.drop_last()), events.last())
    }
}

/// True exactly when the simulation is running.
pub fn is_not_paused(paused: &Paused) -> (running: bool)
    ensures
        running == !paused.0,
{
    paused.0 == false
}

/// Applies one input event to the pause flag: a press flips it exactly once,
/// anything else leaves it alone.
pub fn toggle_pause(paused: &mut Paused, just_pressed: bool)
    ensures
        *final(paused) == toggled(*old(paused), just_pressed),
{
    if just_pressed {
        *paused = Paused(!paused.0);
    }
}

/// Applies a run of input events, oldest first.
pub fn toggle_pause_all(paused: &mut Paused, events: &Vec<bool>)
    ensures
        *final(paused) == toggled_all(*old(paused), events@),
{
    let mut k: usize = 0;
    while k < events.len()
        invariant
            k <= events.len(),
            *paused == toggled_all(*old(paused), events@.take(k as int)),
        decreases events.len() - k,
    {
        proof {
            assert(events@.take(k + 1).drop_last() == events@.take(k as int));
        }
        toggle_pause(paused, events[k]);
        k += 1;
    }
    proof {
        assert(events@.take(k as int) == events@);
    }
}

/// Two presses in a row restore the pause flag.
pub proof fn lemma_toggle_twice_restores(paused: Paused)
    ensures
        toggled(toggled(paused, true), true) == paused,
{
}

/// An event without a press never changes the pause flag.
pub proof fn lemma_no_press_keeps(paused: Paused)
    ensures
        toggled(paused, false) == paused,
{
}

} // verus!

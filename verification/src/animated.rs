//! A value that follows a target by animating toward it on every redraw.
use vstd::prelude::*;
use crate::animation::{AnimatedValue, AnimationTime};
use crate::fixed::Fixed;
use crate::timing::Timing;

verus! {

/// The settings of an animated wrapper: the value it should show, and how
/// it gets there. The animation itself lives in an [`AnimatedValue`] that the
/// host keeps between redraws.
#[derive(Clone, Copy, Debug)]
pub struct Animating {
    /// The value the animation should end up at.
    pub animated_value: Fixed,
    /// How long a transition takes.
    pub duration: Fixed,
    /// The easing curve of the transition.
    pub timing: Timing,
}

impl Animating {
    /// The animation a redraw leaves behind: retargeted at the wanted value
    /// if it was resting or heading elsewhere, then advanced to `now`.
    pub open spec fn on_redraw_spec<Time: AnimationTime>(
        self,
        state: AnimatedValue<Time>,
        now: Time,
    ) -> AnimatedValue<Time> {
        if self.retargets(state) {
            state.transition_spec(self.animated_value, now).tick_spec(now)
        } else {
            state.tick_spec(now)
        }
    }

    /// Whether a redraw has to send `state` toward the wanted value: it is
    /// in flight toward another one, or resting somewhere else.
    pub open spec fn retargets<Time: AnimationTime>(self, state: AnimatedValue<Time>) -> bool {
        match state.animation_state {
            Some(animation) => animation.destination != self.animated_value,
            None => state.position != self.animated_value,
        }
    }

    /// Settings for a wrapper that shows `animated_value`.
    pub fn new(animated_value: Fixed, duration: Fixed, timing: Timing) -> (animating: Self)
        ensures
            animating == (Animating { animated_value, duration, timing }),
    {
        Animating { animated_value, duration, timing }
    }

    /// The animation a wrapper starts out with: at rest on the wanted value.
    pub fn state<Time: AnimationTime>(&self) -> (state: AnimatedValue<Time>)
        ensures
            state == (AnimatedValue::<Time> {
                position: self.animated_value,
                duration_ms: self.duration,
                timing: self.timing,
                animation_state: None,
            }),
            !self.retargets(state),
    {
        AnimatedValue {
            position: self.animated_value,
            duration_ms: self.duration,
            timing: self.timing,
            animation_state: None,
        }
    }

    /// Handles a redraw at `now`: retargets `state` where the wanted value
    /// has changed, and ticks it. Returns whether another redraw is due,
    /// which is the case whenever the animation was or has just been set in
    /// flight.
    pub fn on_redraw_requested<Time: AnimationTime>(
        &self,
        state: &mut AnimatedValue<Time>,
        now: Time,
    ) -> (redraw: bool)
        ensures
            *final(state) == self.on_redraw_spec(*old(state), now),
            redraw == (old(state).animating_spec() || self.retargets(*old(state))),
            final(state).animating_spec() ==> final(state).animation_state->0.destination
                == self.animated_value,
    {
        let retarget = match state.animation_state {
            Some(animation) => animation.destination.raw != self.animated_value.raw,
            None => state.position.raw != self.animated_value.raw,
        };
        if retarget {
            state.transition(self.animated_value, now);
        }
        if state.animating() {
            state.tick(now)
        } else {
            false
        }
    }
}

} // verus!

//! The scalar animation engine.
//!
//! An [`AnimatedValue`] is a number that travels. At rest it simply holds its
//! position. [`AnimatedValue::transition`] gives it somewhere to go, every
//! redraw calls [`AnimatedValue::tick`] with the current time to move it
//! along, and [`AnimatedValue::timed_progress`] reads off the value to draw,
//! bent through the easing curve. Retargeting a value that is already under
//! way picks up from whatever is on screen and carries on at the pace the
//! interrupted flight had.
//!
//! The engine reads no clock of its own: the caller hands in every timestamp.
use vstd::prelude::*;
use crate::fixed::Fixed;
use crate::timing::{lemma_timing_starts_at_zero, lemma_timing_stays_in_unit, Timing};

verus! {

/// Something whose animations move when a redraw is requested.
pub trait Animatable<Time> {
    /// Advances every animation to `now`; `true` asks for another redraw.
    fn on_redraw_request_update(&mut self, now: Time) -> bool;
}

/// A clock reading that can tell how far it lies from an earlier one.
pub trait AnimationTime: Copy {
    /// The time from `time` to `self`, in the unit durations are given in.
    spec fn elapsed_since_spec(self, time: Self) -> Fixed;

    /// The time from `time` to `self`, in the unit durations are given in.
    fn elapsed_since(self, time: Self) -> (elapsed: Fixed)
        ensures
            elapsed == self.elapsed_since_spec(time),
    ;
}

/// A plain number is a clock reading: the time between two is their difference.
impl AnimationTime for Fixed {
    open spec fn elapsed_since_spec(self, time: Fixed) -> Fixed {
        self.sub(time)
    }

    fn elapsed_since(self, time: Fixed) -> (elapsed: Fixed) {
        self.sub(time)
    }
}

/// A transition that is under way.
#[derive(Clone, Copy, Debug)]
pub struct AnimationState<Time> {
    /// Where this leg of the flight set out from.
    pub origin: Fixed,
    /// Where the flight is heading.
    pub destination: Fixed,
    /// When the flight began.
    pub started_time: Time,
    /// When the position was last advanced.
    pub last_tick_time: Time,
    /// Distance covered per unit of time, fixed by the first retargeting of
    /// the flight. Once set, the position moves at this constant pace.
    pub speed_at_interrupt: Option<Fixed>,
}

/// A number that moves toward a destination over time.
#[derive(Clone, Copy, Debug)]
pub struct AnimatedValue<Time> {
    /// The current position in linear time, before easing.
    pub position: Fixed,
    /// How long an uninterrupted transition takes. Zero or less means that
    /// transitions complete at once.
    pub duration_ms: Fixed,
    /// The easing curve applied when the value is read for display.
    pub timing: Timing,
    /// The flight under way, if any. `None` means the value is at rest.
    pub animation_state: Option<AnimationState<Time>>,
}

/// `elapsed`, or zero where a clock that ran backward made it negative.
pub open spec fn forward_only(elapsed: Fixed) -> Fixed {
    if elapsed@ < 0 {
        Fixed::zero()
    } else {
        elapsed
    }
}

impl<Time: AnimationTime> AnimationState<Time> {
    /// The pace of this flight: its whole distance over `duration`.
    pub open spec fn pace(self, duration: Fixed) -> Fixed {
        self.destination.sub(self.origin).div(duration).abs()
    }

    /// How far the position moves in `elapsed` time, signed toward the
    /// destination. A retargeted flight covers `elapsed` times its fixed
    /// speed; any other covers the share `elapsed / duration` of its distance.
    pub open spec fn position_delta(self, duration: Fixed, elapsed: Fixed) -> Fixed {
        match self.speed_at_interrupt {
            Some(speed) => elapsed.mul(
                if self.origin@ > self.destination@ {
                    speed.neg()
                } else {
                    speed
                },
            ),
            None => elapsed.div(duration).mul(self.destination.sub(self.origin)),
        }
    }

    /// Whether `position` has reached or passed the destination in the
    /// direction of travel.
    pub open spec fn reached_by(self, position: Fixed) -> bool {
        if self.origin@ > self.destination@ {
            position@ <= self.destination@
        } else {
            position@ >= self.destination@
        }
    }
}

impl<Time: AnimationTime> AnimatedValue<Time> {
    /// Whether a transition is under way.
    pub open spec fn animating_spec(self) -> bool {
        self.animation_state is Some
    }

    /// The value to display: the position bent through the easing curve.
    ///
    /// In flight over a non-zero distance this is
    /// `origin + curve(completion) · (destination - origin)` with
    /// `completion = (position - origin) / (destination - origin)`. At rest,
    /// or in a flight that has nowhere to go, it is the position itself.
    pub open spec fn timed_progress_spec(self) -> Fixed {
        match self.animation_state {
            Some(animation) => if animation.destination != animation.origin {
                let range = animation.destination.sub(animation.origin);
                let completion = self.position.sub(animation.origin).div(range);
                animation.origin.add(self.timing.timing_spec(completion).mul(range))
            } else {
                self.position
            },
            None => self.position,
        }
    }

    /// The value after `transition(destination, time)`.
    ///
    /// - At rest, a flight begins at the current position.
    /// - In flight toward `destination` already, nothing changes.
    /// - In flight toward another destination, the flight is retargeted: its
    ///   speed is fixed at the pace of the interrupted flight unless an
    ///   earlier retargeting has fixed it, and origin and position both move
    ///   to the value on display. The timestamps stay as they are.
    pub open spec fn transition_spec(self, destination: Fixed, time: Time) -> Self {
        match self.animation_state {
            None => AnimatedValue {
                animation_state: Some(
                    AnimationState {
                        origin: self.position,
                        destination,
                        started_time: time,
                        last_tick_time: time,
                        speed_at_interrupt: None,
                    },
                ),
                ..self
            },
            Some(animation) => if animation.destination == destination {
                self
            } else {
                AnimatedValue {
                    position: self.timed_progress_spec(),
                    animation_state: Some(
                        AnimationState {
                            origin: self.timed_progress_spec(),
                            destination,
                            speed_at_interrupt: Some(
                                match animation.speed_at_interrupt {
                                    Some(speed) => speed,
                                    None => animation.pace(self.duration_ms),
                                },
                            ),
                            ..animation
                        },
                    ),
                    ..self
                }
            },
        }
    }

    /// The value after `tick(time)`.
    ///
    /// At rest nothing changes. In flight the position advances by the
    /// distance covered since the last tick. If the duration is zero or less,
    /// or the advanced position has reached or passed the destination, the
    /// flight ends exactly on the destination; otherwise it goes on from the
    /// advanced position.
    pub open spec fn tick_spec(self, time: Time) -> Self {
        match self.animation_state {
            None => self,
            Some(animation) => {
                let elapsed = forward_only(time.elapsed_since_spec(animation.last_tick_time));
                let advanced = self.position.add(
                    animation.position_delta(self.duration_ms, elapsed),
                );
                if self.duration_ms@ <= 0 || animation.reached_by(advanced) {
                    AnimatedValue { position: animation.destination, animation_state: None, ..self }
                } else {
                    AnimatedValue {
                        position: advanced,
                        animation_state: Some(AnimationState { last_tick_time: time, ..animation }),
                        ..self
                    }
                }
            },
        }
    }

    /// A value at rest at `position`, with no duration and a linear curve.
    pub open spec fn new_spec(position: Fixed) -> Self {
        AnimatedValue {
            position,
            duration_ms: Fixed::zero(),
            timing: Timing::Linear,
            animation_state: None,
        }
    }

    /// A value at rest at `position`, with no duration and a linear curve.
    pub fn new(position: Fixed) -> (value: Self)
        ensures
            value == Self::new_spec(position),
            !value.animating_spec(),
            value.timed_progress_spec() == position,
    {
        AnimatedValue {
            position,
            duration_ms: Fixed::zero(),
            timing: Timing::Linear,
            animation_state: None,
        }
    }

    /// Sets out for `destination`, or retargets the flight under way.
    ///
    /// What is on display does not jump: the value read by `timed_progress`
    /// is the same before and after the call.
    pub fn transition(&mut self, destination: Fixed, time: Time)
        ensures
            *final(self) == old(self).transition_spec(destination, time),
            final(self).animating_spec(),
            final(self).timed_progress_spec() == old(self).timed_progress_spec(),
            old(self).well_formed() ==> final(self).well_formed(),
    {
        proof {
            self.lemma_transition_keeps_display(destination, time);
            if self.well_formed() {
                self.lemma_transition_well_formed(destination, time);
            }
        }
        match self.animation_state {
            Some(animation) => {
                if animation.destination.raw != destination.raw {
                    let timed_progress = self.timed_progress();
                    let speed = match animation.speed_at_interrupt {
                        Some(speed) => speed,
                        None => animation.destination.sub(animation.origin).div(
                            self.duration_ms,
                        ).abs(),
                    };
                    self.position = timed_progress;
                    self.animation_state = Some(
                        AnimationState {
                            origin: timed_progress,
                            destination,
                            started_time: animation.started_time,
                            last_tick_time: animation.last_tick_time,
                            speed_at_interrupt: Some(speed),
                        },
                    );
                }
            },
            None => {
                self.animation_state = Some(
                    AnimationState {
                        origin: self.position,
                        destination,
                        started_time: time,
                        last_tick_time: time,
                        speed_at_interrupt: None,
                    },
                );
            },
        }
    }

    /// Advances the value to `time`. Returns whether a redraw is warranted:
    /// `true` whenever the value was in flight, the tick that lands included.
    pub fn tick(&mut self, time: Time) -> (redraw: bool)
        ensures
            redraw == old(self).animating_spec(),
            *final(self) == old(self).tick_spec(time),
            !old(self).animating_spec() ==> *final(self) == *old(self),
            old(self).well_formed() ==> final(self).well_formed(),
    {
        proof {
            if self.well_formed() {
                self.lemma_tick_approaches(time);
            }
        }
        match self.animation_state {
            None => false,
            Some(animation) => {
                let measured = time.elapsed_since(animation.last_tick_time);
                let elapsed = if measured.raw < 0 {
                    Fixed::zero()
                } else {
                    measured
                };
                let position_delta = match animation.speed_at_interrupt {
                    Some(speed) => {
                        let signed_speed = if animation.origin.raw > animation.destination.raw {
                            speed.neg()
                        } else {
                            speed
                        };
                        elapsed.mul(signed_speed)
                    },
                    None => elapsed.div(self.duration_ms).mul(
                        animation.destination.sub(animation.origin),
                    ),
                };
                let advanced = self.position.add(position_delta);
                let reached = if animation.origin.raw > animation.destination.raw {
                    advanced.raw <= animation.destination.raw
                } else {
                    advanced.raw >= animation.destination.raw
                };
                if self.duration_ms.raw <= 0 || reached {
                    self.position = animation.destination;
                    self.animation_state = None;
                } else {
                    self.position = advanced;
                    self.animation_state = Some(
                        AnimationState {
                            origin: animation.origin,
                            destination: animation.destination,
                            started_time: animation.started_time,
                            last_tick_time: time,
                            speed_at_interrupt: animation.speed_at_interrupt,
                        },
                    );
                }
                true
            },
        }
    }

    /// The value to display: the position bent through the easing curve.
    pub fn timed_progress(self) -> (shown: Fixed)
        ensures
            shown == self.timed_progress_spec(),
    {
        match self.animation_state {
            Some(animation) => {
                if animation.destination.raw != animation.origin.raw {
                    let current = self.position.sub(animation.origin);
                    let range = animation.destination.sub(animation.origin);
                    let completion = current.div(range);
                    animation.origin.add(self.timing.timing(completion).mul(range))
                } else {
                    self.position
                }
            },
            None => self.position,
        }
    }

    /// The value once the flight is over: the destination in flight, the
    /// position at rest.
    pub open spec fn real_value_spec(self) -> Fixed {
        match self.animation_state {
            Some(animation) => animation.destination,
            None => self.position,
        }
    }

    /// The value once the flight is over: the destination in flight, the
    /// position at rest.
    pub fn real_value(self) -> (settled: Fixed)
        ensures
            settled == self.real_value_spec(),
    {
        match self.animation_state {
            Some(animation) => animation.destination,
            None => self.position,
        }
    }

    /// Whether a transition is under way.
    pub fn animating(self) -> (in_flight: bool)
        ensures
            in_flight == self.animating_spec(),
    {
        self.animation_state.is_some()
    }
}

/// Something that can be blended with another of its kind.
pub trait Interpolable: Sized {
    /// The blend of `self` and `other`: `self` at a ratio of zero, `other` at
    /// a ratio of one where both have something to blend.
    spec fn interpolated_spec(self, other: Self, ratio: Fixed) -> Self;

    /// Blends `self` toward `other` by `ratio`. The ratio is not clamped:
    /// outside the range from zero to one the blend extrapolates.
    fn interpolated(self, other: Self, ratio: Fixed) -> (blended: Self)
        ensures
            blended == self.interpolated_spec(other, ratio),
    ;
}

/// Numbers blend linearly: `self · (1 - ratio) + other · ratio`.
impl Interpolable for Fixed {
    open spec fn interpolated_spec(self, other: Fixed, ratio: Fixed) -> Fixed {
        self.mul(Fixed::one().sub(ratio)).add(other.mul(ratio))
    }

    fn interpolated(self, other: Fixed, ratio: Fixed) -> (blended: Fixed) {
        self.mul(Fixed::one().sub(ratio)).add(other.mul(ratio))
    }
}

/// Two values that are both present blend; in every other case the result is
/// `other`, present or not.
impl<T: Interpolable + Copy> Interpolable for Option<T> {
    open spec fn interpolated_spec(self, other: Option<T>, ratio: Fixed) -> Option<T> {
        match (self, other) {
            (Some(a), Some(b)) => Some(a.interpolated_spec(b, ratio)),
            _ => other,
        }
    }

    fn interpolated(self, other: Option<T>, ratio: Fixed) -> (blended: Option<T>) {
        match (self, other) {
            (Some(a), Some(b)) => Some(a.interpolated(b, ratio)),
            _ => other,
        }
    }
}

/// A blend of numbers at a ratio of zero is the first number, and at a ratio
/// of one the second.
pub proof fn lemma_number_blend_end_points(a: Fixed, b: Fixed)
    ensures
        a.interpolated_spec(b, Fixed::zero()) == a,
        a.interpolated_spec(b, Fixed::one()) == b,
{
    Fixed::lemma_identities(a);
    Fixed::lemma_identities(b);
    Fixed::lemma_identities(Fixed::one());
}

impl<Time: AnimationTime> AnimatedValue<Time> {
    /// The shape every value keeps as long as only `new`, `transition` and
    /// `tick` touch it: in flight the position lies between the origin and
    /// the destination, and a fixed speed is a magnitude.
    pub open spec fn well_formed(self) -> bool {
        match self.animation_state {
            Some(animation) => {
                &&& animation.origin@ <= self.position@ <= animation.destination@
                    || animation.destination@ <= self.position@ <= animation.origin@
                &&& animation.speed_at_interrupt matches Some(speed) ==> speed@ >= 0
            },
            None => true,
        }
    }

    /// A transition never makes the displayed value jump: setting out, and
    /// retargeting in mid-flight under any curve, leave `timed_progress`
    /// exactly where it was.
    pub proof fn lemma_transition_keeps_display(self, destination: Fixed, time: Time)
        ensures
            self.transition_spec(destination, time).timed_progress_spec()
                == self.timed_progress_spec(),
    {
        let after = self.transition_spec(destination, time);
        if after != self {
            let shown = self.timed_progress_spec();
            let range = destination.sub(shown);
            assert(after.position == shown);
            assert(after.animation_state->0.origin == shown);
            assert(after.timing == self.timing);
            Fixed::lemma_identities(shown);
            Fixed::lemma_identities(range);
            lemma_timing_starts_at_zero(self.timing);
        }
    }

    /// With a duration of zero or less, the first tick after a transition
    /// lands on the destination, however little time has passed.
    pub proof fn lemma_instant_completion(self, destination: Fixed, start: Time, now: Time)
        requires
            self.duration_ms@ <= 0,
        ensures
            !self.transition_spec(destination, start).tick_spec(now).animating_spec(),
            self.transition_spec(destination, start).tick_spec(now).position == destination,
    {
    }

    /// Transitions keep a value well formed.
    pub proof fn lemma_transition_well_formed(self, destination: Fixed, time: Time)
        requires
            self.well_formed(),
        ensures
            self.transition_spec(destination, time).well_formed(),
    {
    }

    /// A tick keeps a value well formed and never moves it away from its
    /// destination or past it: the new position lies between the old one and
    /// the destination.
    pub proof fn lemma_tick_approaches(self, time: Time)
        requires
            self.well_formed(),
        ensures
            self.tick_spec(time).well_formed(),
            self.animation_state matches Some(animation) ==> {
                let position = self.tick_spec(time).position;
                self.position@ <= position@ <= animation.destination@
                    || animation.destination@ <= position@ <= self.position@
            },
    {
        if let Some(animation) = self.animation_state {
            let elapsed = forward_only(time.elapsed_since_spec(animation.last_tick_time));
            let range = animation.destination.sub(animation.origin);
            match animation.speed_at_interrupt {
                Some(speed) => {
                    Fixed::lemma_scaling(elapsed, speed);
                    Fixed::lemma_scaling(elapsed, speed.neg());
                },
                None => {
                    if self.duration_ms@ > 0 {
                        Fixed::lemma_ratio(elapsed, self.duration_ms);
                        Fixed::lemma_scaling(elapsed.div(self.duration_ms), range);
                    }
                },
            }
        }
    }

    /// The first retargeting of a flight fixes its speed at the pace of the
    /// interrupted flight, and from then on the speed is settled: neither a
    /// later retargeting nor a tick changes it for as long as the flight
    /// lasts.
    pub proof fn lemma_speed_settles(self, destination: Fixed, time: Time, now: Time)
        requires
            self.animation_state matches Some(animation) && animation.destination != destination,
        ensures
            ({
                let before = self.animation_state->0;
                let retargeted = self.transition_spec(destination, time);
                let speed = retargeted.animation_state->0.speed_at_interrupt;
                &&& before.speed_at_interrupt is None ==> speed == Some(
                    before.pace(self.duration_ms),
                )
                &&& before.speed_at_interrupt is Some ==> speed == before.speed_at_interrupt
                &&& retargeted.tick_spec(now).animation_state matches Some(later)
                    ==> later.speed_at_interrupt == speed
                &&& retargeted.transition_spec(self.position, now).animation_state->0.speed_at_interrupt
                    == speed
            }),
    {
    }

    /// The displayed value never overshoots: for a well-formed value in
    /// flight, under any curve, it lies between the origin and the
    /// destination.
    pub proof fn lemma_display_stays_between(self)
        requires
            self.well_formed(),
        ensures
            self.animation_state matches Some(animation) ==> {
                let shown = self.timed_progress_spec();
                animation.origin@ <= shown@ <= animation.destination@
                    || animation.destination@ <= shown@ <= animation.origin@
            },
    {
        if let Some(animation) = self.animation_state {
            if animation.destination != animation.origin {
                let range = animation.destination.sub(animation.origin);
                let current = self.position.sub(animation.origin);
                let completion = current.div(range);
                Fixed::lemma_ratio(current, range);
                lemma_timing_stays_in_unit(self.timing, completion);
                Fixed::lemma_scaling(self.timing.timing_spec(completion), range);
            }
        }
    }

    /// In either direction, a flight that starts from rest is over at the
    /// first tick that comes a full duration or more after its start, and it
    /// ends exactly on the destination. The distance must be one that a
    /// `Fixed` can hold.
    pub proof fn lemma_full_duration_lands(self, destination: Fixed, start: Time, now: Time)
        requires
            !self.animating_spec(),
            self.duration_ms@ > 0,
            now.elapsed_since_spec(start)@ >= self.duration_ms@,
            i64::MIN <= destination@ - self.position@ <= i64::MAX,
        ensures
            !self.transition_spec(destination, start).tick_spec(now).animating_spec(),
            self.transition_spec(destination, start).tick_spec(now).position == destination,
    {
        let elapsed = now.elapsed_since_spec(start);
        let range = destination.sub(self.position);
        Fixed::lemma_ratio(elapsed, self.duration_ms);
        Fixed::lemma_scaling(elapsed.div(self.duration_ms), range);
    }
}

} // verus!

use vstd::prelude::*;

verus! {

/// Where the linear progress of an animation stands within its schedule of
/// repetitions, given how many whole durations have elapsed.
#[derive(Clone, Copy, Debug, PartialEq, Eq, Structural)]
pub enum Segment {
    /// Inside a repetition that runs from the origin to the destination.
    Forward,
    /// Inside a repetition that runs from the destination back to the origin.
    Backward,
    /// All repetitions are done and the animation rests at its origin.
    RestAtStart,
    /// All repetitions are done and the animation rests at its destination.
    RestAtEnd,
}

/// The running part of an animation: where it heads and since when.
#[derive(Clone, Copy, Debug, Default)]
pub struct AnimationState<P, Time> {
    pub destination: P,
    pub start_time: Time,
}

/// An animation between positions of type `P`, eased by an `E`, over time
/// stamps of type `Time`.
#[derive(Clone, Copy, Debug, Default)]
pub struct Animation<P, E, Time> {
    pub origin: P,
    pub duration_ms: P,
    pub easing: E,
    pub delay_ms: P,
    pub repetitions: u32,
    pub auto_reverse_repetitions: bool,
    pub repeat_forever: bool,
    pub animation_state: Option<AnimationState<P, Time>>,
}

impl<P, E, Time> Animation<P, E, Time> {
    /// Creates an animation resting at `origin` with the given timing and
    /// easing, played once, with no transition begun.
    pub fn new(origin: P, duration_ms: P, easing: E, delay_ms: P) -> (a: Self)
        ensures
            a.origin == origin,
            a.duration_ms == duration_ms,
            a.easing == easing,
            a.delay_ms == delay_ms,
            a.repetitions == 1,
            !a.auto_reverse_repetitions,
            !a.repeat_forever,
            a.animation_state.is_none(),
    {
        Animation {
            origin,
            duration_ms,
            easing,
            delay_ms,
            repetitions: 1,
            repeat_forever: false,
            auto_reverse_repetitions: false,
            animation_state: None,
        }
    }

    /// Sets the duration of one repetition, in milliseconds.
    pub fn duration(self, duration_ms: P) -> (a: Self)
        ensures
            a == (Animation { duration_ms, ..self }),
    {
        Animation { duration_ms, ..self }
    }

    /// Sets the easing with which transitions are animated.
    pub fn easing(self, easing: E) -> (a: Self)
        ensures
            a == (Animation { easing, ..self }),
    {
        Animation { easing, ..self }
    }

    /// Sets the delay, in milliseconds, before a transition starts moving.
    pub fn delay(self, delay_ms: P) -> (a: Self)
        ensures
            a == (Animation { delay_ms, ..self }),
    {
        Animation { delay_ms, ..self }
    }

    /// Plays each transition `count` times.
    pub fn repeat(self, count: u32) -> (a: Self)
        ensures
            a == (Animation { repetitions: count, ..self }),
    {
        Animation { repetitions: count, ..self }
    }

    /// Repeats each transition forever.
    pub fn repeat_forever(self) -> (a: Self)
        ensures
            a == (Animation { repeat_forever: true, ..self }),
    {
        Animation { repeat_forever: true, ..self }
    }

    /// Plays every other repetition backwards, from the destination to the
    /// origin.
    pub fn auto_reverse(self) -> (a: Self)
        ensures
            a == (Animation { auto_reverse_repetitions: true, ..self }),
    {
        Animation { auto_reverse_repetitions: true, ..self }
    }

    /// Whether a transition is under way after `whole` elapsed durations of
    /// the current run, `reached` telling whether the linear position at that
    /// moment equals the current destination: a transition has begun, its run
    /// is not over, and it has not arrived.
    pub open spec fn is_in_progress(&self, whole: int, reached: bool) -> bool {
        self.animation_state.is_some() && !self.is_complete(whole) && !reached
    }

    /// Whether a transition is under way after `whole` elapsed durations of
    /// the current run (the elapsed time over the duration, rounded down),
    /// `reached` telling whether the linear position at that moment equals
    /// the current destination.
    pub fn in_progress(&self, whole: i64, reached: bool) -> (b: bool)
        ensures
            b == self.is_in_progress(whole as int, reached),
    {
        match &self.animation_state {
            Some(_) => !self.is_over(whole) && !reached,
            None => false,
        }
    }

    /// The animation after a transition towards `destination` begun at
    /// `time`, where `linear_now` and `eased_now` are its linear and eased
    /// positions at `time` and `reached` tells whether `linear_now` equals
    /// the current destination.
    pub open spec fn transitioned(
        self,
        destination: P,
        time: Time,
        linear_now: P,
        eased_now: P,
        reached: bool,
    ) -> Self {
        Animation {
            origin: if self.animation_state.is_some() && !reached {
                eased_now
            } else {
                linear_now
            },
            animation_state: Some(AnimationState { destination, start_time: time }),
            ..self
        }
    }

    /// Begins a transition towards `destination` at `time`.
    ///
    /// `linear_now` and `eased_now` are the linear and the eased position of
    /// the animation at `time` before the call, and `reached` tells whether
    /// `linear_now` equals the current destination. A transition that begins
    /// while an earlier one has not arrived starts from the eased position,
    /// the one shown, so that the value shown does not jump; any other starts
    /// from the linear position.
    pub fn transition(&mut self, destination: P, time: Time, linear_now: P, eased_now: P, reached: bool)
        ensures
            *final(self) == old(self).transitioned(destination, time, linear_now, eased_now, reached),
            final(self).origin == (if old(self).animation_state.is_some() && !reached {
                eased_now
            } else {
                linear_now
            }),
            final(self).animation_state == Some(
                (AnimationState { destination: destination, start_time: time }),
            ),
            final(self).duration_ms == old(self).duration_ms,
            final(self).easing == old(self).easing,
            final(self).delay_ms == old(self).delay_ms,
            final(self).repetitions == old(self).repetitions,
            final(self).auto_reverse_repetitions == old(self).auto_reverse_repetitions,
            final(self).repeat_forever == old(self).repeat_forever,
    {
        let moving = match &self.animation_state {
            Some(_) => !reached,
            None => false,
        };
        if moving {
            self.origin = eased_now;
        } else {
            self.origin = linear_now;
        }
        self.animation_state = Some(AnimationState { destination, start_time: time });
    }

    /// Number of durations a full run takes: an auto-reversed run plays each
    /// repetition forth and then back.
    pub open spec fn total_repetitions(&self) -> int {
        if self.auto_reverse_repetitions {
            2 * self.repetitions
        } else {
            self.repetitions as int
        }
    }

    /// Whether the run is over once `whole` durations have elapsed.
    pub open spec fn is_complete(&self, whole: int) -> bool {
        !self.repeat_forever && whole >= self.total_repetitions()
    }

    /// The segment of the schedule that `whole` elapsed durations fall in.
    pub open spec fn segment_at(&self, whole: int) -> Segment {
        if self.is_complete(whole) {
            if self.auto_reverse_repetitions {
                Segment::RestAtStart
            } else {
                Segment::RestAtEnd
            }
        } else if self.auto_reverse_repetitions && whole >= 0 && whole % 2 == 1 {
            Segment::Backward
        } else {
            Segment::Forward
        }
    }

    /// The number of durations a full run takes.
    pub fn true_repetitions(&self) -> (n: u64)
        ensures
            n == self.total_repetitions(),
    {
        if self.auto_reverse_repetitions {
            self.repetitions as u64 * 2
        } else {
            self.repetitions as u64
        }
    }

    /// Whether the run is over once `whole` durations have elapsed.
    fn is_over(&self, whole: i64) -> (b: bool)
        ensures
            b == self.is_complete(whole as int),
    {
        !self.repeat_forever && whole >= 0 && whole as u64 >= self.true_repetitions()
    }

    /// The segment of the schedule reached after `whole` elapsed durations,
    /// `whole` being the elapsed time over the duration, rounded down
    /// (negative where that quotient is negative).
    pub fn segment(&self, whole: i64) -> (s: Segment)
        ensures
            s == self.segment_at(whole as int),
    {
        if self.is_over(whole) {
            if self.auto_reverse_repetitions {
                Segment::RestAtStart
            } else {
                Segment::RestAtEnd
            }
        } else if self.auto_reverse_repetitions && whole >= 0 && whole % 2 == 1 {
            Segment::Backward
        } else {
            Segment::Forward
        }
    }
}

} // verus!

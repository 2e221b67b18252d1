use vstd::prelude::*;

use crate::animation::{Animation, AnimationState, Segment};

verus! {

/// Once a run is over it stays over, resting at the same end: later moments
/// of a completed run fall in the same resting segment.
pub proof fn lemma_rest_is_final<P, E, Time>(a: Animation<P, E, Time>, whole: int, later: int)
    requires
        a.is_complete(whole),
        whole <= later,
    ensures
        a.is_complete(later),
        a.segment_at(later) == a.segment_at(whole),
{
}

/// An animation that repeats forever never comes to rest.
pub proof fn lemma_forever_never_rests<P, E, Time>(a: Animation<P, E, Time>, whole: int)
    requires
        a.repeat_forever,
    ensures
        !a.is_complete(whole),
        a.segment_at(whole) == Segment::Forward || a.segment_at(whole) == Segment::Backward,
{
}

/// With auto-reverse, consecutive repetitions of a run go in opposite
/// directions, the first one forward.
pub proof fn lemma_reverse_alternates<P, E, Time>(a: Animation<P, E, Time>, whole: int)
    requires
        a.auto_reverse_repetitions,
        0 <= whole,
        !a.is_complete(whole + 1),
    ensures
        a.segment_at(0) == Segment::Forward,
        a.segment_at(whole) == Segment::Forward || a.segment_at(whole) == Segment::Backward,
        a.segment_at(whole) == Segment::Forward <==> a.segment_at(whole + 1) == Segment::Backward,
{
}

/// Without auto-reverse, an animation never runs backwards and never rests at
/// its origin.
pub proof fn lemma_one_way_without_reverse<P, E, Time>(a: Animation<P, E, Time>, whole: int)
    requires
        !a.auto_reverse_repetitions,
    ensures
        a.segment_at(whole) != Segment::Backward,
        a.segment_at(whole) != Segment::RestAtStart,
{
}

/// An animation repeated `n` times without auto-reverse plays forward through
/// each of the `n` repetitions and then rests at its destination.
pub proof fn lemma_plays_each_repetition<P, E, Time>(a: Animation<P, E, Time>, whole: int)
    requires
        !a.auto_reverse_repetitions,
        !a.repeat_forever,
        0 <= whole,
    ensures
        whole < a.repetitions ==> a.segment_at(whole) == Segment::Forward,
        whole >= a.repetitions ==> a.segment_at(whole) == Segment::RestAtEnd,
{
}

/// An auto-reversed run of `n` repetitions plays `2n` legs, forth and back
/// in turn, and then rests at its origin, where its last leg ends.
pub proof fn lemma_auto_reverse_rest<P, E, Time>(a: Animation<P, E, Time>)
    requires
        a.auto_reverse_repetitions,
        !a.repeat_forever,
    ensures
        a.total_repetitions() == 2 * a.repetitions,
        a.repetitions > 0 ==> a.segment_at(2 * a.repetitions - 1) == Segment::Backward,
        a.segment_at(a.total_repetitions()) == Segment::RestAtStart,
{
}

/// A finished run rests where its last leg ends: at the destination after a
/// forward leg, at the origin after a backward one.
pub proof fn lemma_rest_where_last_leg_ends<P, E, Time>(a: Animation<P, E, Time>)
    requires
        !a.repeat_forever,
        a.total_repetitions() > 0,
    ensures
        a.segment_at(a.total_repetitions() - 1) == Segment::Forward ==> a.segment_at(
            a.total_repetitions(),
        ) == Segment::RestAtEnd,
        a.segment_at(a.total_repetitions() - 1) == Segment::Backward ==> a.segment_at(
            a.total_repetitions(),
        ) == Segment::RestAtStart,
{
}

/// An animation that has never begun a transition is not in progress,
/// whatever its position and however long it has waited.
pub proof fn lemma_idle_until_transition<P, E, Time>(
    a: Animation<P, E, Time>,
    whole: int,
    reached: bool,
)
    requires
        a.animation_state.is_none(),
    ensures
        !a.is_in_progress(whole, reached),
{
}

/// Once its run is over, an animation is no longer in progress, wherever it
/// rests.
pub proof fn lemma_complete_run_is_settled<P, E, Time>(
    a: Animation<P, E, Time>,
    whole: int,
    reached: bool,
)
    requires
        a.is_complete(whole),
    ensures
        !a.is_in_progress(whole, reached),
{
}

/// After a transition the animation is in progress exactly while its run is
/// not over and its linear position differs from the new destination.
pub proof fn lemma_transition_starts_motion<P, E, Time>(
    before: Animation<P, E, Time>,
    destination: P,
    time: Time,
    linear_now: P,
    eased_now: P,
    reached_then: bool,
    whole: int,
    reached: bool,
)
    ensures
        ({
            let after = before.transitioned(destination, time, linear_now, eased_now, reached_then);
            &&& after.animation_state == Some(
                (AnimationState { destination: destination, start_time: time }),
            )
            &&& after.is_in_progress(whole, reached) == (!after.is_complete(whole) && !reached)
        }),
{
}

/// Beginning the same transition twice at the same moment changes nothing,
/// given that at the moment a transition begins the animation stands at its
/// new origin, both linearly and eased.
pub proof fn lemma_transition_idempotent<P, E, Time>(
    a: Animation<P, E, Time>,
    destination: P,
    time: Time,
    linear_now: P,
    eased_now: P,
    reached: bool,
    reached_again: bool,
)
    ensures
        ({
            let once = a.transitioned(destination, time, linear_now, eased_now, reached);
            once.transitioned(destination, time, once.origin, once.origin, reached_again) == once
        }),
{
}

/// A transition begun while an earlier one has not arrived restarts from the
/// eased position, the one shown, so the shown value does not jump; any other
/// transition starts from the linear position. It heads for the new
/// destination from the given moment and leaves every setting as it was,
/// whatever the repetitions, auto-reverse and repeat-forever settings are.
pub proof fn lemma_transition_origin<P, E, Time>(
    a: Animation<P, E, Time>,
    destination: P,
    time: Time,
    linear_now: P,
    eased_now: P,
    reached: bool,
)
    ensures
        ({
            let b = a.transitioned(destination, time, linear_now, eased_now, reached);
            &&& a.animation_state.is_some() && !reached ==> b.origin == eased_now
            &&& a.animation_state.is_none() || reached ==> b.origin == linear_now
            &&& b.animation_state == Some(
                (AnimationState { destination: destination, start_time: time }),
            )
            &&& b.duration_ms == a.duration_ms
            &&& b.easing == a.easing
            &&& b.delay_ms == a.delay_ms
            &&& b.repetitions == a.repetitions
            &&& b.auto_reverse_repetitions == a.auto_reverse_repetitions
            &&& b.repeat_forever == a.repeat_forever
        }),
{
}

/// Interrupting a transition under way, with whatever repetition settings,
/// starts the new one where the shown (eased) position stood: two animations
/// that differ only in their repetition settings restart from the same
/// origin.
pub proof fn lemma_interruption_ignores_repetition_settings<P, E, Time>(
    a: Animation<P, E, Time>,
    repetitions: u32,
    auto_reverse: bool,
    forever: bool,
    destination: P,
    time: Time,
    linear_now: P,
    eased_now: P,
    reached: bool,
)
    ensures
        ({
            let other = Animation {
                repetitions: repetitions,
                auto_reverse_repetitions: auto_reverse,
                repeat_forever: forever,
                ..a
            };
            other.transitioned(destination, time, linear_now, eased_now, reached).origin
                == a.transitioned(destination, time, linear_now, eased_now, reached).origin
        }),
{
}

/// A run takes as many durations as it has repetitions, twice as many with
/// auto-reverse; before a first whole duration has passed it runs forward and
/// is not over.
pub proof fn lemma_schedule_length<P, E, Time>(a: Animation<P, E, Time>, whole: int)
    ensures
        !a.auto_reverse_repetitions ==> a.total_repetitions() == a.repetitions,
        a.auto_reverse_repetitions ==> a.total_repetitions() == 2 * a.repetitions,
        whole < 0 ==> !a.is_complete(whole) && a.segment_at(whole) == Segment::Forward,
        !a.repeat_forever ==> (a.is_complete(whole) <==> whole >= a.total_repetitions()),
{
}

} // verus!

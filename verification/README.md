# Animated transitions

A small animation library. `src/` is verified with Verus: the animation's
state machine (beginning and interrupting transitions, whether one is under
way), its repetition schedule (repeat, repeat forever, auto-reverse) and its
builders, with laws about the schedule in `src/laws.rs`. `app/` computes the
floating-point side: elapsed time, linear and eased positions, and the easing
curves, and offers the `Animated` wrapper around a value.

use vstd::prelude::*;

verus! {

/// The curve with which a transition moves from its origin to its
/// destination: one of the named curves, or a custom one of type `F`.
#[derive(Clone, Copy, Debug, PartialEq, Hash)]
pub enum Easing<F> {
    Linear,
    EaseIn,
    EaseOut,
    EaseInOut,
    EaseInQuad,
    EaseOutQuad,
    EaseInOutQuad,
    EaseInCubic,
    EaseOutCubic,
    EaseInOutCubic,
    EaseInQuart,
    EaseOutQuart,
    EaseInOutQuart,
    EaseInQuint,
    EaseOutQuint,
    EaseInOutQuint,
    EaseInExpo,
    EaseOutExpo,
    EaseInOutExpo,
    EaseInCirc,
    EaseOutCirc,
    EaseInOutCirc,
    EaseInBack,
    EaseOutBack,
    EaseInOutBack,
    EaseInElastic,
    EaseOutElastic,
    EaseInOutElastic,
    EaseInBounce,
    EaseOutBounce,
    EaseInOutBounce,
    Custom(F),
}

impl<F> Default for Easing<F> {
    /// The linear curve.
    fn default() -> (e: Self)
        ensures
            e == Easing::<F>::Linear,
    {
        Easing::Linear
    }
}

} // verus!

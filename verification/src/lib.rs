//! Interpolated transitions of a wrapped value: the animation's state
//! machine and its repetition schedule, verified.

mod animation;
mod easing;
pub mod laws;

pub use animation::{Animation, AnimationState, Segment};
pub use easing::Easing;

//! Gestures of the touch panel.
use vstd::prelude::*;

verus! {

/// Direction of a swipe across the touch panel.
#[derive(Clone, Copy, Debug, PartialEq, Eq, Structural)]
pub enum SwipeDirection {
    Up,
    Down,
    Left,
    Right,
}

} // verus!

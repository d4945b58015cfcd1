//! What the apps share.
use vstd::prelude::*;

verus! {

/// Width of the watch display, in pixels.
pub const W: i32 = 410;

/// Height of the watch display, in pixels.
pub const H: i32 = 502;

/// What an app's `update` asks of the app switcher.
#[derive(Clone, Copy, Debug, PartialEq, Eq, Structural)]
pub enum AppResult {
    /// Keep the current app in front.
    Continue,
}

} // verus!

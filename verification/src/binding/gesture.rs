//! Gesture-button direction slots (swipe and click).

use vstd::prelude::*;

verus! {

/// One of the five sub-bindings on the gesture button: hold and swipe
/// up/down/left/right, or a plain click without movement.
#[derive(Clone, Copy, Debug, PartialEq, Eq, Hash, PartialOrd, Ord, Structural)]
pub enum GestureDirection {
    /// Hold + swipe up (negative raw-XY `dy`).
    Up,
    /// Hold + swipe down (positive raw-XY `dy`).
    Down,
    /// Hold + swipe left (negative raw-XY `dx`).
    Left,
    /// Hold + swipe right (positive raw-XY `dx`).
    Right,
    /// A press-and-release that never committed a swipe.
    Click,
}

/// The label of a direction.
pub open spec fn direction_label(d: GestureDirection) -> Seq<char> {
    match d {
        GestureDirection::Up => "Up"@,
        GestureDirection::Down => "Down"@,
        GestureDirection::Left => "Left"@,
        GestureDirection::Right => "Right"@,
        GestureDirection::Click => "Click"@,
    }
}

/// The catalog key of a direction's localized label.
pub open spec fn direction_key(d: GestureDirection) -> Seq<char> {
    match d {
        GestureDirection::Up => "common.up"@,
        GestureDirection::Down => "common.down"@,
        GestureDirection::Left => "common.left"@,
        GestureDirection::Right => "common.right"@,
        GestureDirection::Click => "common.click"@,
    }
}

impl GestureDirection {
    /// All five direction slots, swipes first and `Click` last.
    pub fn all() -> (a: [GestureDirection; 5])
        ensures
            a@ == seq![
                GestureDirection::Up,
                GestureDirection::Down,
                GestureDirection::Left,
                GestureDirection::Right,
                GestureDirection::Click,
            ],
    {
        let a = [
            GestureDirection::Up,
            GestureDirection::Down,
            GestureDirection::Left,
            GestureDirection::Right,
            GestureDirection::Click,
        ];
        assert(a@ =~= seq![
            GestureDirection::Up,
            GestureDirection::Down,
            GestureDirection::Left,
            GestureDirection::Right,
            GestureDirection::Click,
        ]);
        a
    }

    /// Human-readable label for popovers and tooltips.
    pub fn label(self) -> (s: &'static str)
        ensures
            s@ == direction_label(self),
    {
        match self {
            GestureDirection::Up => "Up",
            GestureDirection::Down => "Down",
            GestureDirection::Left => "Left",
            GestureDirection::Right => "Right",
            GestureDirection::Click => "Click",
        }
    }

    /// Stable catalog key for the localized direction label.
    pub fn translation_key(self) -> (s: &'static str)
        ensures
            s@ == direction_key(self),
    {
        match self {
            GestureDirection::Up => "common.up",
            GestureDirection::Down => "common.down",
            GestureDirection::Left => "common.left",
            GestureDirection::Right => "common.right",
            GestureDirection::Click => "common.click",
        }
    }
}

} // verus!

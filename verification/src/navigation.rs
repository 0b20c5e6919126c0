use vstd::prelude::*;

verus! {

/// How a widget takes part in focus navigation.
///
/// The effects that hinder a focus change (`Reach*`, `Lock`) only apply to
/// navigation by keyboard or mouse. Programmatic focus changes are always
/// possible.
#[derive(Debug, Clone, Copy, PartialEq, Eq, Structural)]
pub enum Navigation {
    /// Widget is not reachable with normal keyboard or mouse navigation.
    Unreachable,
    /// Focus is locked to stay with this widget. No mouse or keyboard
    /// navigation can change that.
    Lock,
    /// Widget is not reachable with keyboard navigation, but can be focused
    /// with the mouse.
    Mouse,
    /// Widget cannot be reached with normal keyboard navigation, but can be
    /// left (e.g. tabs, split dividers).
    Leave,
    /// Widget can be reached with normal keyboard navigation, but not left
    /// (e.g. a text area).
    Reach,
    /// Widget can be reached with normal keyboard navigation, but only be
    /// left with backward navigation.
    ReachLeaveFront,
    /// Widget can be reached with normal keyboard navigation, but only be
    /// left with forward navigation.
    ReachLeaveBack,
    /// Widget can be reached and left with normal keyboard navigation.
    Regular,
}

impl Default for Navigation {
    /// The default is [`Navigation::Regular`].
    fn default() -> (n: Self)
        ensures
            n == Navigation::Regular,
    {
        Navigation::Regular
    }
}

} // verus!

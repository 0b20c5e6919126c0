use ratatui::layout::Rect;
use vstd::prelude::*;

use crate::area::{empty_area, empty_rect};
use crate::flag::{ContainerFlag, FlagStore, FocusFlag};
use crate::navigation::Navigation;

verus! {

/// Trait for a widget that has a focus flag.
pub trait HasFocus {
    /// The widget's focus flag.
    spec fn focus_flag(&self) -> FocusFlag;

    /// Access to the flag for the rest: the widget's own flag, sharing its
    /// state.
    fn focus(&self) -> (flag: FocusFlag)
        ensures
            flag == self.focus_flag(),
    ;

    /// Area for mouse focus.
    ///
    /// This area shouldn't overlap with areas returned by other widgets.
    fn area(&self) -> Rect;

    /// Z value for the area.
    ///
    /// When testing for mouse interactions the z-value is taken into
    /// consideration too.
    fn area_z(&self) -> (z: u16)
        default_ensures
            z == 0,
    {
        0
    }

    /// Declares how the widget interacts with focus.
    ///
    /// Default is [`Navigation::Regular`].
    fn navigable(&self) -> (n: Navigation)
        default_ensures
            n == Navigation::Regular,
    {
        Navigation::Regular
    }

    /// Focused?
    fn is_focused(&self, flags: &FlagStore) -> (focused: bool)
        requires
            flags.holds(self.focus_flag()),
        ensures
            focused == flags.state(self.focus_flag()).focus,
    {
        self.focus().get(flags)
    }

    /// Just lost focus.
    fn lost_focus(&self, flags: &FlagStore) -> (lost: bool)
        requires
            flags.holds(self.focus_flag()),
        ensures
            lost == flags.state(self.focus_flag()).lost,
    {
        self.focus().lost(flags)
    }

    /// Just gained focus.
    fn gained_focus(&self, flags: &FlagStore) -> (gained: bool)
        requires
            flags.holds(self.focus_flag()),
        ensures
            gained == flags.state(self.focus_flag()).gained,
    {
        self.focus().gained(flags)
    }
}

/// The store holds the state of the container flag, where there is one.
pub open spec fn holds_opt(flags: FlagStore, c: Option<ContainerFlag>) -> bool {
    c matches Some(c) ==> flags.holds_container(c)
}

/// Is this a container widget.
pub trait FocusContainer {
    /// The container's flag, if it has one.
    spec fn container_flag(&self) -> Option<ContainerFlag>;

    /// Returns the container-flag, sharing its state.
    ///
    /// Will be used to collect the state of all widgets in the container.
    fn container(&self) -> (flag: Option<ContainerFlag>)
        ensures
            flag == self.container_flag(),
    ;

    /// Area of the container for mouse-events.
    ///
    /// Default is the empty area.
    fn area(&self) -> (area: Rect)
        default_ensures
            area == empty_rect(),
    {
        empty_area()
    }

    /// Z value for the area.
    ///
    /// When testing for mouse interactions the z-value is taken into
    /// consideration too.
    fn area_z(&self) -> (z: u16)
        default_ensures
            z == 0,
    {
        0
    }

    /// Focused?
    fn is_container_focused(&self, flags: &FlagStore) -> (focused: bool)
        requires
            holds_opt(*flags, self.container_flag()),
        ensures
            focused == (self.container_flag() matches Some(c) && flags.container_state(c).focus),
    {
        if let Some(flag) = self.container() {
            flag.get(flags)
        } else {
            false
        }
    }

    /// Just lost focus.
    fn container_lost_focus(&self, flags: &FlagStore) -> (lost: bool)
        requires
            holds_opt(*flags, self.container_flag()),
        ensures
            lost == (self.container_flag() matches Some(c) && flags.container_state(c).lost),
    {
        if let Some(flag) = self.container() {
            flag.lost(flags)
        } else {
            false
        }
    }

    /// Just gained focus.
    fn container_gained_focus(&self, flags: &FlagStore) -> (gained: bool)
        requires
            holds_opt(*flags, self.container_flag()),
        ensures
            gained == (self.container_flag() matches Some(c) && flags.container_state(
                c,
            ).gained),
    {
        if let Some(flag) = self.container() {
            flag.gained(flags)
        } else {
            false
        }
    }
}

impl HasFocus for FocusFlag {
    open spec fn focus_flag(&self) -> FocusFlag {
        *self
    }

    fn focus(&self) -> (flag: FocusFlag) {
        *self
    }

    fn area(&self) -> (area: Rect)
        ensures
            area == empty_rect(),
    {
        empty_area()
    }
}

impl FocusContainer for ContainerFlag {
    open spec fn container_flag(&self) -> Option<ContainerFlag> {
        Some(*self)
    }

    fn container(&self) -> (flag: Option<ContainerFlag>) {
        Some(*self)
    }

    fn area(&self) -> (area: Rect)
        ensures
            area == empty_rect(),
    {
        empty_area()
    }
}

impl FocusContainer for () {
    open spec fn container_flag(&self) -> Option<ContainerFlag> {
        None
    }

    fn container(&self) -> (flag: Option<ContainerFlag>) {
        None
    }
}

} // verus!

use ratatui::layout::Rect;
use vstd::prelude::*;
use vstd::string::*;

use crate::area::{debug_rect, empty_area, empty_rect, rect_debug};
use crate::text::{decimal, decimal_string};
use crate::flag::{ContainerFlag, FlagState, FlagStore, FocusFlag};
use crate::navigation::Navigation;
use crate::traits::{FocusContainer, HasFocus};

verus! {

/// Adapter for widgets that don't use this library.
///
/// This can be constructed on the fly, if you have the necessary parts.
/// You will at least need a [`FocusFlag`] stored parallel to the widget state;
/// the adapter shares that flag's state.
#[derive(Debug)]
pub struct FocusAdapter {
    pub focus: FocusFlag,
    pub area: Rect,
    pub area_z: u16,
    pub navigation: Navigation,
}

impl FocusAdapter {
    /// An adapter with a fresh, unnamed flag in `flags`, the empty area,
    /// z value 0 and regular navigation.
    pub fn default(flags: &mut FlagStore) -> (a: Self)
        ensures
            final(flags)@ == old(flags)@.push(FlagState::named(Seq::empty())),
            a.focus.slot() == old(flags)@.len(),
            forall|g: FocusFlag| old(flags).holds(g) ==> g != a.focus,
            forall|g: FocusFlag| g.store() != old(flags).store_id() ==> g != a.focus,
            a.focus.store() == old(flags).store_id(),
            final(flags).store_id() == old(flags).store_id(),
            final(flags).holds(a.focus),
            a.area == empty_rect(),
            a.area_z == 0,
            a.navigation == Navigation::Regular,
    {
        FocusAdapter {
            focus: FocusFlag::new(flags),
            area: empty_area(),
            area_z: 0,
            navigation: Navigation::default(),
        }
    }
}

impl HasFocus for FocusAdapter {
    open spec fn focus_flag(&self) -> FocusFlag {
        self.focus
    }

    fn focus(&self) -> (flag: FocusFlag) {
        self.focus
    }

    fn area(&self) -> (area: Rect)
        ensures
            area == self.area,
    {
        self.area
    }

    fn area_z(&self) -> (z: u16)
        ensures
            z == self.area_z,
    {
        self.area_z
    }

    fn navigable(&self) -> (n: Navigation)
        ensures
            n == self.navigation,
    {
        self.navigation
    }
}

/// Adapter for container widgets that don't use this library.
///
/// This can be constructed on the fly, if you have the necessary parts.
/// You will at least need a [`ContainerFlag`] stored parallel to the widget
/// state; the adapter shares that flag's state.
#[derive(Debug)]
pub struct ContainerAdapter {
    pub container: ContainerFlag,
    pub area: Rect,
    pub area_z: u16,
}

impl ContainerAdapter {
    /// An adapter with a fresh, unnamed flag in `flags`, the empty area and
    /// z value 0.
    pub fn default(flags: &mut FlagStore) -> (a: Self)
        ensures
            final(flags)@ == old(flags)@.push(FlagState::named(Seq::empty())),
            a.container.slot() == old(flags)@.len(),
            forall|d: ContainerFlag| old(flags).holds_container(d) ==> d != a.container,
            forall|d: ContainerFlag| d.store() != old(flags).store_id() ==> d != a.container,
            a.container.store() == old(flags).store_id(),
            final(flags).store_id() == old(flags).store_id(),
            final(flags).holds_container(a.container),
            a.area == empty_rect(),
            a.area_z == 0,
    {
        ContainerAdapter { container: ContainerFlag::new(flags), area: empty_area(), area_z: 0 }
    }

    /// The adapter as `Debug` writes it:
    /// `ContainerAdapter { container: .., area: .., area_z: .. }`, with the
    /// container flag's state read from `flags`.
    pub fn debug_string(&self, flags: &FlagStore) -> (s: String)
        requires
            flags.holds_container(self.container),
        ensures
            s@ == "ContainerAdapter { container: "@ + flags.container_state(
                self.container,
            ).debug_text("ContainerFlag"@) + ", area: "@ + rect_debug(self.area) + ", area_z: "@
                + decimal(self.area_z as nat) + " }"@,
    {
        let mut s = "ContainerAdapter { container: ".to_owned();
        let container = self.container.debug_string(flags);
        s.append(container.as_str());
        s.append(", area: ");
        let area = debug_rect(&self.area);
        s.append(area.as_str());
        s.append(", area_z: ");
        let z = decimal_string(self.area_z);
        s.append(z.as_str());
        s.append(" }");
        s
    }
}

impl FocusContainer for ContainerAdapter {
    open spec fn container_flag(&self) -> Option<ContainerFlag> {
        Some(self.container)
    }

    fn container(&self) -> (flag: Option<ContainerFlag>) {
        Some(self.container)
    }

    fn area(&self) -> (area: Rect)
        ensures
            area == self.area,
    {
        self.area
    }

    fn area_z(&self) -> (z: u16)
        ensures
            z == self.area_z,
    {
        self.area_z
    }
}

} // verus!

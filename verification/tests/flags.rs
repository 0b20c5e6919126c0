use std::collections::HashSet;

use rat_focus::{
    ContainerAdapter, ContainerFlag, FlagStore, FocusAdapter, FocusContainer, FocusFlag,
    HasFocus, Navigation,
};
use ratatui::layout::Rect;

#[test]
fn new_flag_is_unnamed_and_clear() {
    let mut s = FlagStore::new(1);
    let f = FocusFlag::new(&mut s);
    assert_eq!(f.name(&s), "");
    assert!(!f.get(&s));
    assert!(!f.lost(&s));
    assert!(!f.gained(&s));
}

#[test]
fn named_flag_keeps_its_name() {
    let mut s = FlagStore::new(1);
    let f = FocusFlag::named(&mut s, "field1");
    assert_eq!(f.name(&s), "field1");
    assert!(!f.get(&s) && !f.lost(&s) && !f.gained(&s));
    let c = ContainerFlag::named(&mut s, "box");
    assert_eq!(c.name(&s), "box");
    assert!(!c.get(&s) && !c.lost(&s) && !c.gained(&s));
}

#[test]
fn fresh_flags_are_distinct() {
    let mut s = FlagStore::new(1);
    let f = FocusFlag::named(&mut s, "a");
    let g = FocusFlag::named(&mut s, "a");
    let n = FocusFlag::new(&mut s);
    assert_ne!(f, g);
    assert_ne!(f, n);
    assert_ne!(g, n);
    let c = ContainerFlag::new(&mut s);
    let d = ContainerFlag::new(&mut s);
    assert_ne!(c, d);
}

#[test]
fn copies_are_equal_and_hash_alike() {
    let mut s = FlagStore::new(1);
    let f = FocusFlag::named(&mut s, "a");
    let g = f.clone();
    assert_eq!(f, g);
    let mut set = HashSet::new();
    set.insert(f);
    assert!(set.contains(&g));
    let h = FocusFlag::named(&mut s, "a");
    assert!(!set.contains(&h));
}

#[test]
fn set_then_get_reads_back() {
    let mut s = FlagStore::new(1);
    let f = FocusFlag::named(&mut s, "a");
    f.set(&mut s, true);
    assert!(f.get(&s));
    assert!(!f.lost(&s) && !f.gained(&s));
    f.set(&mut s, false);
    assert!(!f.get(&s));
}

#[test]
fn copies_share_state() {
    let mut s = FlagStore::new(1);
    let f = FocusFlag::named(&mut s, "a");
    let g = f.clone();
    let other = FocusFlag::named(&mut s, "a");
    f.set(&mut s, true);
    f.set_lost(&mut s, true);
    assert!(g.get(&s) && g.lost(&s) && !g.gained(&s));
    assert!(!other.get(&s) && !other.lost(&s));
    g.set_gained(&mut s, true);
    assert!(f.gained(&s));
}

#[test]
fn clear_through_a_copy_resets_the_original() {
    let mut s = FlagStore::new(1);
    let f = FocusFlag::named(&mut s, "a");
    let g = f.clone();
    let other = FocusFlag::named(&mut s, "b");
    other.set(&mut s, true);
    f.set(&mut s, true);
    f.set_lost(&mut s, true);
    f.set_gained(&mut s, true);
    g.clear(&mut s);
    assert!(!f.get(&s) && !f.lost(&s) && !f.gained(&s));
    assert_eq!(f.name(&s), "a");
    assert!(other.get(&s));
    g.clear(&mut s);
    assert!(!f.get(&s) && !f.lost(&s) && !f.gained(&s));
}

#[test]
fn setters_leave_other_flags_alone() {
    let mut s = FlagStore::new(1);
    let f = FocusFlag::named(&mut s, "a");
    f.set_lost(&mut s, true);
    assert!(f.lost(&s));
    assert!(!f.get(&s) && !f.gained(&s));
    f.set_gained(&mut s, true);
    assert!(f.gained(&s) && f.lost(&s) && !f.get(&s));
    f.set_lost(&mut s, false);
    assert!(!f.lost(&s) && f.gained(&s));
    assert_eq!(f.name(&s), "a");
}

#[test]
fn last_write_wins() {
    let mut s = FlagStore::new(1);
    let f = FocusFlag::new(&mut s);
    f.set(&mut s, true);
    f.set(&mut s, false);
    assert!(!f.get(&s));
    f.set_gained(&mut s, false);
    f.set_gained(&mut s, true);
    assert!(f.gained(&s));
}

#[test]
fn container_copies_share_state() {
    let mut s = FlagStore::new(1);
    let c = ContainerFlag::named(&mut s, "c");
    let d = c.clone();
    let h = ContainerFlag::named(&mut s, "c");
    c.set(&mut s, true);
    d.set_gained(&mut s, true);
    assert!(c.gained(&s) && c.get(&s) && !c.lost(&s));
    assert!(!h.gained(&s) && !h.get(&s));
    c.set_lost(&mut s, true);
    d.clear(&mut s);
    assert!(!c.get(&s) && !c.lost(&s) && !c.gained(&s));
    assert_eq!(c.name(&s), "c");
}

#[test]
fn flag_displays_name_between_bars() {
    let mut s = FlagStore::new(1);
    let f = FocusFlag::named(&mut s, "field1");
    let n = FocusFlag::new(&mut s);
    let c = ContainerFlag::named(&mut s, "box");
    assert_eq!(f.to_string(&s), "|field1|");
    assert_eq!(n.to_string(&s), "||");
    assert_eq!(c.to_string(&s), "|box|");
}

#[test]
fn focus_flag_is_its_own_focus() {
    let mut s = FlagStore::new(1);
    let f = FocusFlag::named(&mut s, "a");
    assert!(!f.is_focused(&s));
    let r = f.focus();
    assert_eq!(r, f);
    r.set(&mut s, true);
    r.set_gained(&mut s, true);
    assert!(f.get(&s));
    assert!(f.is_focused(&s));
    assert!(f.gained_focus(&s));
    assert!(!f.lost_focus(&s));
    assert_eq!(HasFocus::area_z(&f), 0);
    assert_eq!(f.navigable(), Navigation::Regular);
    assert_eq!(HasFocus::area(&f), Rect::default());
}

#[test]
fn container_flag_is_its_own_container() {
    let mut s = FlagStore::new(1);
    let c = ContainerFlag::named(&mut s, "c");
    assert!(!c.is_container_focused(&s));
    c.set(&mut s, true);
    c.set_lost(&mut s, true);
    assert!(c.is_container_focused(&s));
    assert!(c.container_lost_focus(&s));
    assert!(!c.container_gained_focus(&s));
    assert_eq!(c.container(), Some(c));
    assert_eq!(FocusContainer::area(&c), Rect::new(0, 0, 0, 0));
    assert_eq!(FocusContainer::area_z(&c), 0);
}

#[test]
fn unit_container_has_no_flag() {
    let s = FlagStore::new(1);
    assert!(().container().is_none());
    assert!(!().is_container_focused(&s));
    assert!(!().container_lost_focus(&s));
    assert!(!().container_gained_focus(&s));
    assert_eq!(FocusContainer::area(&()), Rect::default());
    assert_eq!(FocusContainer::area_z(&()), 0);
}

#[test]
fn navigation_default_is_regular() {
    assert_eq!(Navigation::default(), Navigation::Regular);
    assert_ne!(Navigation::default(), Navigation::Lock);
}

#[test]
fn focus_adapter_shares_its_flag() {
    let mut s = FlagStore::new(1);
    let focus = FocusFlag::named(&mut s, "w");
    let a = FocusAdapter {
        focus: focus.clone(),
        area: Rect::new(1, 2, 3, 4),
        area_z: 7,
        navigation: Navigation::Mouse,
    };
    assert!(!a.is_focused(&s));
    focus.set(&mut s, true);
    assert!(a.is_focused(&s));
    assert!(!a.lost_focus(&s));
    assert_eq!(a.focus(), focus);
    assert_eq!(a.area(), Rect::new(1, 2, 3, 4));
    assert_eq!(a.area_z(), 7);
    assert_eq!(a.navigable(), Navigation::Mouse);
}

#[test]
fn focus_adapter_default() {
    let mut s = FlagStore::new(1);
    let before = FocusFlag::new(&mut s);
    let a = FocusAdapter::default(&mut s);
    assert_ne!(a.focus, before);
    assert_eq!(a.focus.name(&s), "");
    assert!(!a.is_focused(&s));
    assert_eq!(a.area, Rect::default());
    assert_eq!(a.area_z, 0);
    assert_eq!(a.navigation, Navigation::Regular);
}

#[test]
fn container_adapter_shares_its_flag() {
    let mut s = FlagStore::new(1);
    let container = ContainerFlag::named(&mut s, "c");
    let a = ContainerAdapter { container, area: Rect::new(5, 6, 7, 8), area_z: 2 };
    container.set_gained(&mut s, true);
    assert!(a.container_gained_focus(&s));
    assert!(!a.is_container_focused(&s));
    assert_eq!(a.area(), Rect::new(5, 6, 7, 8));
    assert_eq!(a.area_z(), 2);
    assert_eq!(a.container(), Some(container));
    let d = ContainerAdapter::default(&mut s);
    assert_ne!(d.container, container);
    assert_eq!(d.area, Rect::default());
    assert_eq!(d.area_z, 0);
    assert!(!d.is_container_focused(&s));
}

#[test]
fn flags_of_different_stores_differ() {
    let mut a = FlagStore::new(1);
    let mut b = FlagStore::new(2);
    let f = FocusFlag::new(&mut a);
    let g = FocusFlag::new(&mut b);
    assert_ne!(f, g);
    assert!(a.contains(f));
    assert!(!a.contains(g));
    assert!(!b.contains(f));
    assert!(b.contains(g));
    let c = ContainerFlag::new(&mut a);
    let d = ContainerFlag::new(&mut b);
    assert_ne!(c, d);
    assert!(a.contains_container(c) && !a.contains_container(d));
    assert_eq!(a.id(), 1);
    assert_eq!(b.id(), 2);
}

#[test]
fn store_does_not_hold_unknown_flags() {
    let mut a = FlagStore::new(7);
    let mut big = FlagStore::new(7);
    let _ = FocusFlag::new(&mut big);
    let second = FocusFlag::new(&mut big);
    assert!(!a.contains(second));
    let first = FocusFlag::new(&mut a);
    assert!(a.contains(first));
}

#[test]
fn flag_debug_text() {
    let mut s = FlagStore::new(1);
    let f = FocusFlag::named(&mut s, "a");
    f.set(&mut s, true);
    assert_eq!(
        f.debug_string(&s),
        "FocusFlag { name: \"a\", focus: true, gained: false, lost: false }"
    );
    let q = FocusFlag::named(&mut s, "say \"hi\"");
    q.set_lost(&mut s, true);
    assert_eq!(
        q.debug_string(&s),
        format!("FocusFlag {{ name: {:?}, focus: false, gained: false, lost: true }}", "say \"hi\"")
    );
    let c = ContainerFlag::named(&mut s, "b");
    c.set_gained(&mut s, true);
    assert_eq!(
        c.debug_string(&s),
        "ContainerFlag { name: \"b\", focus: false, gained: true, lost: false }"
    );
}

#[test]
fn container_adapter_debug_text() {
    let mut s = FlagStore::new(1);
    let container = ContainerFlag::named(&mut s, "c");
    let a = ContainerAdapter { container, area: Rect::new(1, 2, 3, 4), area_z: 305 };
    assert_eq!(
        a.debug_string(&s),
        "ContainerAdapter { container: ContainerFlag { name: \"c\", focus: false, gained: false, lost: false }, area: Rect { x: 1, y: 2, width: 3, height: 4 }, area_z: 305 }"
    );
    let d = ContainerAdapter { container, area: Rect::default(), area_z: 0 };
    assert!(d.debug_string(&s).ends_with("area: Rect { x: 0, y: 0, width: 0, height: 0 }, area_z: 0 }"));
}

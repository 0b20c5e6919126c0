use vstd::prelude::*;
use vstd::string::*;

use crate::text::{bool_str, bool_text, debug_str, str_debug};

verus! {

/// What a focus flag holds: its name and its three flags.
pub struct FlagState {
    /// Field name, for debugging.
    pub name: Seq<char>,
    /// The widget has the focus.
    pub focus: bool,
    /// The widget just gained the focus.
    pub gained: bool,
    /// The widget just lost the focus.
    pub lost: bool,
}

impl FlagState {
    /// A flag with the given name and all three flags false.
    pub open spec fn named(name: Seq<char>) -> FlagState {
        FlagState { name, focus: false, gained: false, lost: false }
    }

    /// The same flag with `focus` replaced.
    pub open spec fn with_focus(self, focus: bool) -> FlagState {
        FlagState { name: self.name, focus, gained: self.gained, lost: self.lost }
    }

    /// The same flag with `gained` replaced.
    pub open spec fn with_gained(self, gained: bool) -> FlagState {
        FlagState { name: self.name, focus: self.focus, gained, lost: self.lost }
    }

    /// The same flag with `lost` replaced.
    pub open spec fn with_lost(self, lost: bool) -> FlagState {
        FlagState { name: self.name, focus: self.focus, gained: self.gained, lost }
    }

    /// The same flag with all three flags reset to false.
    pub open spec fn cleared(self) -> FlagState {
        FlagState::named(self.name)
    }

    /// How the flag is displayed: its name between two bars.
    pub open spec fn display(self) -> Seq<char> {
        seq!['|'] + self.name + seq!['|']
    }

    /// How `Debug` writes a flag of the given type: the type's name, then
    /// its name and its three flags as fields.
    pub open spec fn debug_text(self, kind: Seq<char>) -> Seq<char> {
        kind + " { name: "@ + str_debug(self.name) + ", focus: "@ + bool_text(self.focus)
            + ", gained: "@ + bool_text(self.gained) + ", lost: "@ + bool_text(self.lost) + " }"@
    }
}

/// The state behind one flag: its name and its three flags.
#[derive(Debug)]
struct FocusFlagCore {
    /// Field name for debugging purposes.
    name: String,
    /// Focus.
    focus: bool,
    /// This widget just gained the focus.
    gained: bool,
    /// This widget just lost the focus.
    lost: bool,
}

impl View for FocusFlagCore {
    type V = FlagState;

    closed spec fn view(&self) -> FlagState {
        FlagState { name: self.name@, focus: self.focus, gained: self.gained, lost: self.lost }
    }
}

impl FocusFlagCore {
    fn named(name: &str) -> (core: Self)
        ensures
            core@ == FlagState::named(name@),
    {
        FocusFlagCore { name: name.to_owned(), focus: false, gained: false, lost: false }
    }
}

/// The shared state of focus flags and container flags.
///
/// A flag is a handle into the store that created it: every copy of a handle
/// reads and writes the same state. A flag carries the id of its store, and
/// only that store holds it. Two flags are equal exactly when they carry the
/// same store id and refer to the same state in it; so flags from different
/// `new` or `named` calls are unequal as long as every store is given its own
/// id.
#[derive(Debug)]
pub struct FlagStore {
    id: u64,
    cores: Vec<FocusFlagCore>,
}

impl View for FlagStore {
    type V = Seq<FlagState>;

    closed spec fn view(&self) -> Seq<FlagState> {
        self.cores@.map_values(|c: FocusFlagCore| c@)
    }
}

/// Holds the flags for the focus of a widget.
///
/// Add this to the widget state. The flag is a handle that is meant to be
/// copied: all copies share one state in the [`FlagStore`] that created it.
/// Equality of flags means that they share the same state.
#[derive(Debug, Clone, Copy, PartialEq, Eq, Structural, Hash)]
pub struct FocusFlag {
    store: u64,
    id: usize,
}

/// The same as [`FocusFlag`], but distinct to mark the focus of a container.
///
/// It summarizes the focus for the container: if any widget of the
/// container has the focus, the container itself has the focus.
#[derive(Debug, Clone, Copy, PartialEq, Eq, Structural, Hash)]
pub struct ContainerFlag {
    store: u64,
    id: usize,
}

impl FocusFlag {
    /// The id of the store that created the flag.
    pub closed spec fn store(self) -> u64 {
        self.store
    }

    /// The position of the flag's state in its store.
    pub closed spec fn slot(self) -> int {
        self.id as int
    }
}

impl ContainerFlag {
    /// The id of the store that created the flag.
    pub closed spec fn store(self) -> u64 {
        self.store
    }

    /// The position of the flag's state in its store.
    pub closed spec fn slot(self) -> int {
        self.id as int
    }
}

/// Two focus flags are the same flag exactly when they come from the same
/// store and share one state in it.
pub proof fn lemma_focus_flag_identity(f: FocusFlag, g: FocusFlag)
    ensures
        (f == g) <==> (f.store() == g.store() && f.slot() == g.slot()),
        f.slot() >= 0,
{
}

/// Two container flags are the same flag exactly when they come from the
/// same store and share one state in it.
pub proof fn lemma_container_flag_identity(c: ContainerFlag, d: ContainerFlag)
    ensures
        (c == d) <==> (c.store() == d.store() && c.slot() == d.slot()),
        c.slot() >= 0,
{
}

impl FlagStore {
    /// The id the store was created with.
    pub closed spec fn store_id(self) -> u64 {
        self.id
    }

    /// The store holds the state of focus flag `f`: it created `f`.
    pub open spec fn holds(self, f: FocusFlag) -> bool {
        &&& f.store() == self.store_id()
        &&& 0 <= f.slot() < self@.len()
    }

    /// The store holds the state of container flag `c`: it created `c`.
    pub open spec fn holds_container(self, c: ContainerFlag) -> bool {
        &&& c.store() == self.store_id()
        &&& 0 <= c.slot() < self@.len()
    }

    /// The state of focus flag `f`.
    pub open spec fn state(self, f: FocusFlag) -> FlagState {
        self@[f.slot()]
    }

    /// The state of container flag `c`.
    pub open spec fn container_state(self, c: ContainerFlag) -> FlagState {
        self@[c.slot()]
    }

    /// The store after the state at position `i` was replaced by `s`.
    pub open spec fn updated(states: Seq<FlagState>, i: int, s: FlagState) -> Seq<FlagState> {
        states.update(i, s)
    }

    /// An empty store with the given id.
    ///
    /// Give each store its own id: flags of two stores with the same id
    /// would be taken for each other.
    pub fn new(id: u64) -> (store: Self)
        ensures
            store@ == Seq::<FlagState>::empty(),
            store.store_id() == id,
    {
        let store = FlagStore { id, cores: Vec::new() };
        assert(store@ =~= Seq::<FlagState>::empty());
        store
    }

    /// The id the store was created with.
    pub fn id(&self) -> (id: u64)
        ensures
            id == self.store_id(),
    {
        self.id
    }

    /// Does the store hold focus flag `f`?
    pub fn contains(&self, f: FocusFlag) -> (b: bool)
        ensures
            b == self.holds(f),
    {
        f.store == self.id && f.id < self.cores.len()
    }

    /// Does the store hold container flag `c`?
    pub fn contains_container(&self, c: ContainerFlag) -> (b: bool)
        ensures
            b == self.holds_container(c),
    {
        c.store == self.id && c.id < self.cores.len()
    }

    /// Appends a fresh state with the given name and all flags false, and
    /// returns its position.
    fn add(&mut self, name: &str) -> (id: usize)
        ensures
            final(self).store_id() == old(self).store_id(),
            id == old(self)@.len(),
            final(self)@ == old(self)@.push(FlagState::named(name@)),
    {
        let id = self.cores.len();
        let core = FocusFlagCore::named(name);
        self.cores.push(core);
        assert(self@ =~= old(self)@.push(FlagState::named(name@)));
        id
    }

    /// Replaces the state at position `id`.
    fn replace(&mut self, id: usize, core: FocusFlagCore)
        requires
            id < old(self)@.len(),
        ensures
            final(self).store_id() == old(self).store_id(),
            final(self)@ == old(self)@.update(id as int, core@),
    {
        self.cores.set(id, core);
        assert(self@ =~= old(self)@.update(id as int, core@));
    }

    /// A copy of the state at position `id`.
    fn core_at(&self, id: usize) -> (core: FocusFlagCore)
        requires
            id < self@.len(),
        ensures
            core@ == self@[id as int],
    {
        let c = &self.cores[id];
        FocusFlagCore { name: c.name.clone(), focus: c.focus, gained: c.gained, lost: c.lost }
    }

    fn focus_at(&self, id: usize) -> (focus: bool)
        requires
            id < self@.len(),
        ensures
            focus == self@[id as int].focus,
    {
        self.cores[id].focus
    }

    fn lost_at(&self, id: usize) -> (lost: bool)
        requires
            id < self@.len(),
        ensures
            lost == self@[id as int].lost,
    {
        self.cores[id].lost
    }

    fn gained_at(&self, id: usize) -> (gained: bool)
        requires
            id < self@.len(),
        ensures
            gained == self@[id as int].gained,
    {
        self.cores[id].gained
    }

    fn name_at(&self, id: usize) -> (name: &str)
        requires
            id < self@.len(),
        ensures
            name@ == self@[id as int].name,
    {
        self.cores[id].name.as_str()
    }

    fn set_focus_at(&mut self, id: usize, focus: bool)
        requires
            id < old(self)@.len(),
        ensures
            final(self).store_id() == old(self).store_id(),
            final(self)@ == old(self)@.update(id as int, old(self)@[id as int].with_focus(focus)),
    {
        let mut core = self.core_at(id);
        core.focus = focus;
        self.replace(id, core);
    }

    fn set_lost_at(&mut self, id: usize, lost: bool)
        requires
            id < old(self)@.len(),
        ensures
            final(self).store_id() == old(self).store_id(),
            final(self)@ == old(self)@.update(id as int, old(self)@[id as int].with_lost(lost)),
    {
        let mut core = self.core_at(id);
        core.lost = lost;
        self.replace(id, core);
    }

    fn set_gained_at(&mut self, id: usize, gained: bool)
        requires
            id < old(self)@.len(),
        ensures
            final(self).store_id() == old(self).store_id(),
            final(self)@ == old(self)@.update(
                id as int,
                old(self)@[id as int].with_gained(gained),
            ),
    {
        let mut core = self.core_at(id);
        core.gained = gained;
        self.replace(id, core);
    }

    fn clear_at(&mut self, id: usize)
        requires
            id < old(self)@.len(),
        ensures
            final(self).store_id() == old(self).store_id(),
            final(self)@ == old(self)@.update(id as int, old(self)@[id as int].cleared()),
    {
        let mut core = self.core_at(id);
        core.focus = false;
        core.lost = false;
        core.gained = false;
        self.replace(id, core);
    }
}

impl FlagStore {
    /// The `Debug` text of the state at position `id` for a flag of the
    /// given type.
    fn debug_at(&self, id: usize, kind: &str) -> (text: String)
        requires
            id < self@.len(),
        ensures
            text@ == self@[id as int].debug_text(kind@),
    {
        let c = &self.cores[id];
        let mut text = kind.to_owned();
        text.append(" { name: ");
        let name = debug_str(c.name.as_str());
        text.append(name.as_str());
        text.append(", focus: ");
        text.append(bool_str(c.focus));
        text.append(", gained: ");
        text.append(bool_str(c.gained));
        text.append(", lost: ");
        text.append(bool_str(c.lost));
        text.append(" }");
        text
    }
}

/// Encloses `name` between two bars.
fn bracket_name(name: &str) -> (s: String)
    ensures
        s@ == seq!['|'] + name@ + seq!['|'],
{
    let bar = "|";
    proof {
        reveal_strlit("|");
    }
    let mut s = bar.to_owned();
    s.append(name);
    s.append(bar);
    s
}

impl FocusFlag {
    /// Create a default flag: a fresh, unnamed flag in `flags`, with all
    /// flags false. It is equal to no flag that existed before.
    pub fn new(flags: &mut FlagStore) -> (f: Self)
        ensures
            final(flags).store_id() == old(flags).store_id(),
            final(flags)@ == old(flags)@.push(FlagState::named(Seq::empty())),
            f.slot() == old(flags)@.len(),
            f.store() == old(flags).store_id(),
            forall|g: FocusFlag| old(flags).holds(g) ==> g != f,
            forall|g: FocusFlag| g.store() != old(flags).store_id() ==> g != f,
    {
        let name = "";
        proof {
            reveal_strlit("");
            assert(name@ =~= Seq::<char>::empty());
        }
        Self::named(flags, name)
    }

    /// Create a named flag: a fresh flag in `flags`, with all flags false.
    /// It is equal to no flag that existed before.
    pub fn named(flags: &mut FlagStore, name: &str) -> (f: Self)
        ensures
            final(flags).store_id() == old(flags).store_id(),
            final(flags)@ == old(flags)@.push(FlagState::named(name@)),
            f.slot() == old(flags)@.len(),
            f.store() == old(flags).store_id(),
            forall|g: FocusFlag| old(flags).holds(g) ==> g != f,
            forall|g: FocusFlag| g.store() != old(flags).store_id() ==> g != f,
    {
        let id = flags.add(name);
        FocusFlag { store: flags.id, id }
    }

    /// Has the focus.
    pub fn get(&self, flags: &FlagStore) -> (focus: bool)
        requires
            flags.holds(*self),
        ensures
            focus == flags.state(*self).focus,
    {
        flags.focus_at(self.id)
    }

    /// Set the focus. Every copy of this flag sees the change; no other
    /// flag changes.
    pub fn set(&self, flags: &mut FlagStore, focus: bool)
        requires
            old(flags).holds(*self),
        ensures
            final(flags).store_id() == old(flags).store_id(),
            final(flags)@ == FlagStore::updated(
                old(flags)@,
                self.slot(),
                old(flags).state(*self).with_focus(focus),
            ),
    {
        flags.set_focus_at(self.id, focus);
    }

    /// Get the field-name.
    pub fn name<'a>(&self, flags: &'a FlagStore) -> (name: &'a str)
        requires
            flags.holds(*self),
        ensures
            name@ == flags.state(*self).name,
    {
        flags.name_at(self.id)
    }

    /// Just lost the focus.
    pub fn lost(&self, flags: &FlagStore) -> (lost: bool)
        requires
            flags.holds(*self),
        ensures
            lost == flags.state(*self).lost,
    {
        flags.lost_at(self.id)
    }

    /// Set the lost flag. Every copy of this flag sees the change; no other
    /// flag changes.
    pub fn set_lost(&self, flags: &mut FlagStore, lost: bool)
        requires
            old(flags).holds(*self),
        ensures
            final(flags).store_id() == old(flags).store_id(),
            final(flags)@ == FlagStore::updated(
                old(flags)@,
                self.slot(),
                old(flags).state(*self).with_lost(lost),
            ),
    {
        flags.set_lost_at(self.id, lost);
    }

    /// Just gained the focus.
    pub fn gained(&self, flags: &FlagStore) -> (gained: bool)
        requires
            flags.holds(*self),
        ensures
            gained == flags.state(*self).gained,
    {
        flags.gained_at(self.id)
    }

    /// Set the gained flag. Every copy of this flag sees the change; no
    /// other flag changes.
    pub fn set_gained(&self, flags: &mut FlagStore, gained: bool)
        requires
            old(flags).holds(*self),
        ensures
            final(flags).store_id() == old(flags).store_id(),
            final(flags)@ == FlagStore::updated(
                old(flags)@,
                self.slot(),
                old(flags).state(*self).with_gained(gained),
            ),
    {
        flags.set_gained_at(self.id, gained);
    }

    /// Reset all flags to false. Every copy of this flag sees the change; no
    /// other flag changes.
    pub fn clear(&self, flags: &mut FlagStore)
        requires
            old(flags).holds(*self),
        ensures
            final(flags).store_id() == old(flags).store_id(),
            final(flags)@ == FlagStore::updated(
                old(flags)@,
                self.slot(),
                old(flags).state(*self).cleared(),
            ),
    {
        flags.clear_at(self.id);
    }

    /// The flag as it is displayed: `|name|`.
    pub fn to_string(&self, flags: &FlagStore) -> (s: String)
        requires
            flags.holds(*self),
        ensures
            s@ == flags.state(*self).display(),
            s@.len() == flags.state(*self).name.len() + 2,
            s@[0] == '|',
            s@[s@.len() - 1] == '|',
            s@.subrange(1, s@.len() - 1) == flags.state(*self).name,
    {
        bracket_name(flags.name_at(self.id))
    }

    /// The flag as `Debug` writes it:
    /// `FocusFlag { name: "..", focus: .., gained: .., lost: .. }`.
    pub fn debug_string(&self, flags: &FlagStore) -> (s: String)
        requires
            flags.holds(*self),
        ensures
            s@ == flags.state(*self).debug_text("FocusFlag"@),
    {
        flags.debug_at(self.id, "FocusFlag")
    }
}

impl ContainerFlag {
    /// Create a default flag: a fresh, unnamed flag in `flags`, with all
    /// flags false. It is equal to no container flag that existed before.
    pub fn new(flags: &mut FlagStore) -> (c: Self)
        ensures
            final(flags).store_id() == old(flags).store_id(),
            final(flags)@ == old(flags)@.push(FlagState::named(Seq::empty())),
            c.slot() == old(flags)@.len(),
            c.store() == old(flags).store_id(),
            forall|d: ContainerFlag| old(flags).holds_container(d) ==> d != c,
            forall|d: ContainerFlag| d.store() != old(flags).store_id() ==> d != c,
    {
        let name = "";
        proof {
            reveal_strlit("");
            assert(name@ =~= Seq::<char>::empty());
        }
        Self::named(flags, name)
    }

    /// Create a named flag: a fresh flag in `flags`, with all flags false.
    /// It is equal to no container flag that existed before.
    pub fn named(flags: &mut FlagStore, name: &str) -> (c: Self)
        ensures
            final(flags).store_id() == old(flags).store_id(),
            final(flags)@ == old(flags)@.push(FlagState::named(name@)),
            c.slot() == old(flags)@.len(),
            c.store() == old(flags).store_id(),
            forall|d: ContainerFlag| old(flags).holds_container(d) ==> d != c,
            forall|d: ContainerFlag| d.store() != old(flags).store_id() ==> d != c,
    {
        let id = flags.add(name);
        ContainerFlag { store: flags.id, id }
    }

    /// Has the focus.
    pub fn get(&self, flags: &FlagStore) -> (focus: bool)
        requires
            flags.holds_container(*self),
        ensures
            focus == flags.container_state(*self).focus,
    {
        flags.focus_at(self.id)
    }

    /// Set the focus. Every copy of this flag sees the change; no other
    /// flag changes.
    pub fn set(&self, flags: &mut FlagStore, focus: bool)
        requires
            old(flags).holds_container(*self),
        ensures
            final(flags).store_id() == old(flags).store_id(),
            final(flags)@ == FlagStore::updated(
                old(flags)@,
                self.slot(),
                old(flags).container_state(*self).with_focus(focus),
            ),
    {
        flags.set_focus_at(self.id, focus);
    }

    /// Get the field-name.
    pub fn name<'a>(&self, flags: &'a FlagStore) -> (name: &'a str)
        requires
            flags.holds_container(*self),
        ensures
            name@ == flags.container_state(*self).name,
    {
        flags.name_at(self.id)
    }

    /// Just lost the focus.
    pub fn lost(&self, flags: &FlagStore) -> (lost: bool)
        requires
            flags.holds_container(*self),
        ensures
            lost == flags.container_state(*self).lost,
    {
        flags.lost_at(self.id)
    }

    /// Set the lost flag. Every copy of this flag sees the change; no other
    /// flag changes.
    pub fn set_lost(&self, flags: &mut FlagStore, lost: bool)
        requires
            old(flags).holds_container(*self),
        ensures
            final(flags).store_id() == old(flags).store_id(),
            final(flags)@ == FlagStore::updated(
                old(flags)@,
                self.slot(),
                old(flags).container_state(*self).with_lost(lost),
            ),
    {
        flags.set_lost_at(self.id, lost);
    }

    /// Just gained the focus.
    pub fn gained(&self, flags: &FlagStore) -> (gained: bool)
        requires
            flags.holds_container(*self),
        ensures
            gained == flags.container_state(*self).gained,
    {
        flags.gained_at(self.id)
    }

    /// Set the gained flag. Every copy of this flag sees the change; no
    /// other flag changes.
    pub fn set_gained(&self, flags: &mut FlagStore, gained: bool)
        requires
            old(flags).holds_container(*self),
        ensures
            final(flags).store_id() == old(flags).store_id(),
            final(flags)@ == FlagStore::updated(
                old(flags)@,
                self.slot(),
                old(flags).container_state(*self).with_gained(gained),
            ),
    {
        flags.set_gained_at(self.id, gained);
    }

    /// Reset all flags to false. Every copy of this flag sees the change; no
    /// other flag changes.
    pub fn clear(&self, flags: &mut FlagStore)
        requires
            old(flags).holds_container(*self),
        ensures
            final(flags).store_id() == old(flags).store_id(),
            final(flags)@ == FlagStore::updated(
                old(flags)@,
                self.slot(),
                old(flags).container_state(*self).cleared(),
            ),
    {
        flags.clear_at(self.id);
    }

    /// The flag as it is displayed: `|name|`.
    pub fn to_string(&self, flags: &FlagStore) -> (s: String)
        requires
            flags.holds_container(*self),
        ensures
            s@ == flags.container_state(*self).display(),
            s@.len() == flags.container_state(*self).name.len() + 2,
            s@[0] == '|',
            s@[s@.len() - 1] == '|',
            s@.subrange(1, s@.len() - 1) == flags.container_state(*self).name,
    {
        bracket_name(flags.name_at(self.id))
    }

    /// The flag as `Debug` writes it:
    /// `ContainerFlag { name: "..", focus: .., gained: .., lost: .. }`.
    pub fn debug_string(&self, flags: &FlagStore) -> (s: String)
        requires
            flags.holds_container(*self),
        ensures
            s@ == flags.container_state(*self).debug_text("ContainerFlag"@),
    {
        flags.debug_at(self.id, "ContainerFlag")
    }
}

} // verus!

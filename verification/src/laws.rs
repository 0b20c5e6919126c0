use vstd::prelude::*;

use crate::adapter::{ContainerAdapter, FocusAdapter};
use crate::flag::{ContainerFlag, FlagState, FlagStore, FocusFlag};
use crate::text::{decimal, str_debug};
use crate::traits::{FocusContainer, HasFocus};

verus! {

/// A flag reads back what was last written to it: after `set(b)`, `get()`
/// returns `b`; after `set_lost(b)`, `lost()` returns `b`; after
/// `set_gained(b)`, `gained()` returns `b`. Each setter leaves the name and
/// the two other flags as they were.
pub proof fn law_read_after_write(s: FlagState, b: bool)
    ensures
        s.with_focus(b).focus == b,
        s.with_focus(b).lost == s.lost,
        s.with_focus(b).gained == s.gained,
        s.with_focus(b).name == s.name,
        s.with_lost(b).lost == b,
        s.with_lost(b).focus == s.focus,
        s.with_lost(b).gained == s.gained,
        s.with_lost(b).name == s.name,
        s.with_gained(b).gained == b,
        s.with_gained(b).focus == s.focus,
        s.with_gained(b).lost == s.lost,
        s.with_gained(b).name == s.name,
{
}

/// The last write wins: two writes to the same flag leave the flag as the
/// second write alone would.
pub proof fn law_last_write_wins(s: FlagState, a: bool, b: bool)
    ensures
        s.with_focus(a).with_focus(b) == s.with_focus(b),
        s.with_lost(a).with_lost(b) == s.with_lost(b),
        s.with_gained(a).with_gained(b) == s.with_gained(b),
{
}

/// `clear` resets all three flags to false and keeps the name: the flag is
/// then the same as a flag freshly created with `named` under that name, and
/// clearing it again changes nothing. Whatever was set before a `clear` is
/// forgotten by it.
pub proof fn law_clear_resets(s: FlagState, b: bool)
    ensures
        s.cleared() == FlagState::named(s.name),
        !s.cleared().focus && !s.cleared().lost && !s.cleared().gained,
        s.cleared().cleared() == s.cleared(),
        s.with_focus(b).cleared() == s.cleared(),
        s.with_lost(b).cleared() == s.cleared(),
        s.with_gained(b).cleared() == s.cleared(),
{
}

/// Copies of a focus flag share one state: when `set`, `set_lost`,
/// `set_gained` or `clear` writes the state `x` through the flag `f` of a
/// store, every flag `g` equal to `f` (a copy of it, or what `focus()`
/// returned for it) reads `x` afterwards, and the state of every other flag
/// of that store stays as it was.
pub proof fn law_copies_share_state(
    flags: Seq<FlagState>,
    id: u64,
    f: FocusFlag,
    g: FocusFlag,
    x: FlagState,
)
    requires
        f.store() == id,
        0 <= f.slot() < flags.len(),
        g == f,
    ensures
        FlagStore::updated(flags, f.slot(), x)[g.slot()] == x,
        FlagStore::updated(flags, f.slot(), x).len() == flags.len(),
        forall|h: FocusFlag|
            h.store() == id && h != f && 0 <= #[trigger] h.slot() < flags.len()
                ==> FlagStore::updated(flags, f.slot(), x)[h.slot()] == flags[h.slot()],
        forall|c: ContainerFlag|
            c.slot() != f.slot() && 0 <= #[trigger] c.slot() < flags.len()
                ==> FlagStore::updated(flags, f.slot(), x)[c.slot()] == flags[c.slot()],
{
    assert forall|h: FocusFlag|
        h.store() == id && h != f && 0 <= #[trigger] h.slot() < flags.len() implies FlagStore::updated(
            flags,
            f.slot(),
            x,
        )[h.slot()] == flags[h.slot()] by {
        crate::flag::lemma_focus_flag_identity(h, f);
    }
}

/// Copies of a container flag share one state: when a write stores `x`
/// through the container flag `c` of a store, every container flag `d`
/// equal to `c` reads `x` afterwards, and the state of every other container
/// flag of that store stays as it was.
pub proof fn law_container_copies_share_state(
    flags: Seq<FlagState>,
    id: u64,
    c: ContainerFlag,
    d: ContainerFlag,
    x: FlagState,
)
    requires
        c.store() == id,
        0 <= c.slot() < flags.len(),
        d == c,
    ensures
        FlagStore::updated(flags, c.slot(), x)[d.slot()] == x,
        FlagStore::updated(flags, c.slot(), x).len() == flags.len(),
        forall|e: ContainerFlag|
            e.store() == id && e != c && 0 <= #[trigger] e.slot() < flags.len()
                ==> FlagStore::updated(flags, c.slot(), x)[e.slot()] == flags[e.slot()],
{
    assert forall|e: ContainerFlag|
        e.store() == id && e != c && 0 <= #[trigger] e.slot() < flags.len() implies FlagStore::updated(
            flags,
            c.slot(),
            x,
        )[e.slot()] == flags[e.slot()] by {
        crate::flag::lemma_container_flag_identity(e, c);
    }
}

/// Flags of two stores with different ids are different flags, whatever
/// their positions.
pub proof fn law_flags_of_other_stores_differ(f: FocusFlag, g: FocusFlag, c: ContainerFlag, d: ContainerFlag)
    ensures
        f.store() != g.store() ==> f != g,
        c.store() != d.store() ==> c != d,
{
}

/// One write through a flag: what `set`, `set_lost`, `set_gained` and
/// `clear` do to the flag's state.
pub enum FlagWrite {
    /// `set(b)`.
    Focus(bool),
    /// `set_lost(b)`.
    Lost(bool),
    /// `set_gained(b)`.
    Gained(bool),
    /// `clear()`.
    Clear,
}

/// The state after one write.
pub open spec fn apply_write(s: FlagState, w: FlagWrite) -> FlagState {
    match w {
        FlagWrite::Focus(b) => s.with_focus(b),
        FlagWrite::Lost(b) => s.with_lost(b),
        FlagWrite::Gained(b) => s.with_gained(b),
        FlagWrite::Clear => s.cleared(),
    }
}

/// The state after a sequence of writes, first to last.
pub open spec fn apply_writes(s: FlagState, ws: Seq<FlagWrite>) -> FlagState
    decreases ws.len(),
{
    if ws.len() == 0 {
        s
    } else {
        apply_write(apply_writes(s, ws.drop_last()), ws.last())
    }
}

/// What `get` reads after a sequence of writes on a flag whose focus was
/// `init`: the value of the last `set`, false if a `clear` came after it,
/// and `init` if there was neither.
pub open spec fn focus_after(init: bool, ws: Seq<FlagWrite>) -> bool
    decreases ws.len(),
{
    if ws.len() == 0 {
        init
    } else {
        match ws.last() {
            FlagWrite::Focus(b) => b,
            FlagWrite::Clear => false,
            _ => focus_after(init, ws.drop_last()),
        }
    }
}

/// The states of a store after a sequence of writes, each made through a
/// flag of the store, first to last.
pub open spec fn store_after(st: Seq<FlagState>, ws: Seq<(FocusFlag, FlagWrite)>) -> Seq<FlagState>
    decreases ws.len(),
{
    if ws.len() == 0 {
        st
    } else {
        let prev = store_after(st, ws.drop_last());
        let g = ws.last().0;
        if 0 <= g.slot() < prev.len() {
            FlagStore::updated(prev, g.slot(), apply_write(prev[g.slot()], ws.last().1))
        } else {
            prev
        }
    }
}

/// The writes of a sequence that were made through a flag equal to `f`.
pub open spec fn writes_on(ws: Seq<(FocusFlag, FlagWrite)>, f: FocusFlag) -> Seq<FlagWrite>
    decreases ws.len(),
{
    if ws.len() == 0 {
        Seq::empty()
    } else if ws.last().0 == f {
        writes_on(ws.drop_last(), f).push(ws.last().1)
    } else {
        writes_on(ws.drop_last(), f)
    }
}

/// Over any sequence of writes, `get` returns the value of the last `set`,
/// or false where a `clear` came after it, and the state it had before where
/// there was neither; `set_lost` and `set_gained` do not change it, and no
/// write changes the name.
pub proof fn law_focus_after_writes(s: FlagState, ws: Seq<FlagWrite>)
    ensures
        apply_writes(s, ws).focus == focus_after(s.focus, ws),
        apply_writes(s, ws).name == s.name,
    decreases ws.len(),
{
    if ws.len() > 0 {
        law_focus_after_writes(s, ws.drop_last());
    }
}

/// Over any sequence of writes made through flags of one store, a flag `f`
/// of that store ends with the state that the writes made through flags
/// equal to `f` (itself, its copies, what `focus()` returned for it) give,
/// in their order; writes through other flags do not touch it. So `get`
/// returns the value of the last `set` through any copy (false after a
/// later `clear`), and `name` never changes.
pub proof fn law_writes_through_copies(
    st: Seq<FlagState>,
    id: u64,
    ws: Seq<(FocusFlag, FlagWrite)>,
    f: FocusFlag,
)
    requires
        f.store() == id,
        0 <= f.slot() < st.len(),
        forall|i: int| 0 <= i < ws.len() ==> (#[trigger] ws[i]).0.store() == id,
    ensures
        store_after(st, ws).len() == st.len(),
        store_after(st, ws)[f.slot()] == apply_writes(st[f.slot()], writes_on(ws, f)),
        store_after(st, ws)[f.slot()].focus == focus_after(
            st[f.slot()].focus,
            writes_on(ws, f),
        ),
        store_after(st, ws)[f.slot()].name == st[f.slot()].name,
    decreases ws.len(),
{
    if ws.len() > 0 {
        let rest = ws.drop_last();
        assert forall|i: int| 0 <= i < rest.len() implies (#[trigger] rest[i]).0.store() == id by {
            assert(rest[i] == ws[i]);
        }
        law_writes_through_copies(st, id, rest, f);
        let g = ws.last().0;
        assert(g.store() == id) by {
            assert(ws[ws.len() - 1] == ws.last());
        }
        crate::flag::lemma_focus_flag_identity(g, f);
        if g == f {
            let ops = writes_on(rest, f).push(ws.last().1);
            assert(ops.drop_last() =~= writes_on(rest, f));
        }
    }
    law_focus_after_writes(st[f.slot()], writes_on(ws, f));
}

/// Each of `set(b)`, `set_lost(b)`, `set_gained(b)` and `clear()` called
/// through a flag `g` of a store makes exactly one step of `store_after`:
/// the store those calls leave, by their contracts, is `store_after` of the
/// writes made so far with the new write appended.
pub proof fn law_each_setter_is_one_write(
    st: Seq<FlagState>,
    ws: Seq<(FocusFlag, FlagWrite)>,
    g: FocusFlag,
    b: bool,
)
    requires
        0 <= g.slot() < store_after(st, ws).len(),
    ensures
        store_after(st, ws.push((g, FlagWrite::Focus(b)))) == FlagStore::updated(
            store_after(st, ws),
            g.slot(),
            store_after(st, ws)[g.slot()].with_focus(b),
        ),
        store_after(st, ws.push((g, FlagWrite::Lost(b)))) == FlagStore::updated(
            store_after(st, ws),
            g.slot(),
            store_after(st, ws)[g.slot()].with_lost(b),
        ),
        store_after(st, ws.push((g, FlagWrite::Gained(b)))) == FlagStore::updated(
            store_after(st, ws),
            g.slot(),
            store_after(st, ws)[g.slot()].with_gained(b),
        ),
        store_after(st, ws.push((g, FlagWrite::Clear))) == FlagStore::updated(
            store_after(st, ws),
            g.slot(),
            store_after(st, ws)[g.slot()].cleared(),
        ),
{
    assert(ws.push((g, FlagWrite::Focus(b))).drop_last() =~= ws);
    assert(ws.push((g, FlagWrite::Lost(b))).drop_last() =~= ws);
    assert(ws.push((g, FlagWrite::Gained(b))).drop_last() =~= ws);
    assert(ws.push((g, FlagWrite::Clear)).drop_last() =~= ws);
}

/// A focus flag's own flag is the flag itself: `focus()` returns the same
/// flag, so `is_focused`, `lost_focus` and `gained_focus` read the state
/// that `get`, `lost` and `gained` read.
pub proof fn law_focus_flag_is_its_own_focus(f: FocusFlag, flags: FlagStore)
    requires
        flags.holds(f),
    ensures
        f.focus_flag() == f,
        flags.state(f.focus_flag()) == flags.state(f),
{
}

/// A container flag is its own container: `container()` returns the same
/// flag, so `is_container_focused`, `container_lost_focus` and
/// `container_gained_focus` read the state that `get`, `lost` and `gained`
/// read. The unit container has no flag, so it is never focused, and never
/// just lost or gained the focus.
pub proof fn law_container_flag_is_its_own_container(c: ContainerFlag, flags: FlagStore)
    requires
        flags.holds_container(c),
    ensures
        c.container_flag() == Some(c),
        flags.container_state(c) == flags@[c.slot()],
        ().container_flag() is None,
{
}

/// An adapter shares the flag it was built with: its `focus()` or
/// `container()` is that very flag, so it reads every later change made
/// through any copy of the flag.
pub proof fn law_adapters_share_their_flag(a: FocusAdapter, b: ContainerAdapter)
    ensures
        a.focus_flag() == a.focus,
        b.container_flag() == Some(b.container),
{
}

/// A flag is displayed as its whole name between two bars: the text is two
/// characters longer than the name, starts and ends with `|`, and what lies
/// between the bars is exactly the name.
pub proof fn law_display_is_name_between_bars(st: FlagState)
    ensures
        st.display().len() == st.name.len() + 2,
        st.display()[0] == '|',
        st.display()[st.display().len() - 1] == '|',
        st.display().subrange(1, st.display().len() - 1) == st.name,
{
    assert(st.display().subrange(1, st.display().len() - 1) =~= st.name);
}

/// The `Debug` text of a flag shows each of its three flags by its own
/// value: two states with the same name and the same `Debug` text have the
/// same focus, gained and lost flags. So a change of any one flag, whatever
/// the other two are, changes the text.
pub proof fn law_debug_text_shows_each_flag(s1: FlagState, s2: FlagState, kind: Seq<char>)
    requires
        s1.name == s2.name,
        s1.debug_text(kind) == s2.debug_text(kind),
    ensures
        s1 == s2,
{
    reveal_strlit("true");
    reveal_strlit("false");
    let t1 = s1.debug_text(kind);
    let t2 = s2.debug_text(kind);
    let p0 = kind + " { name: "@ + str_debug(s1.name) + ", focus: "@;
    let f1 = crate::text::bool_text(s1.focus);
    let f2 = crate::text::bool_text(s2.focus);
    if s1.focus != s2.focus {
        assert(t1[p0.len() as int] == f1[0]);
        assert(t2[p0.len() as int] == f2[0]);
        assert(false);
    }
    let p1 = p0 + f1 + ", gained: "@;
    let g1 = crate::text::bool_text(s1.gained);
    let g2 = crate::text::bool_text(s2.gained);
    if s1.gained != s2.gained {
        assert(t1[p1.len() as int] == g1[0]);
        assert(t2[p1.len() as int] == g2[0]);
        assert(false);
    }
    let p2 = p1 + g1 + ", lost: "@;
    let l1 = crate::text::bool_text(s1.lost);
    let l2 = crate::text::bool_text(s2.lost);
    if s1.lost != s2.lost {
        assert(t1[p2.len() as int] == l1[0]);
        assert(t2[p2.len() as int] == l2[0]);
        assert(false);
    }
}

/// The number that a text of decimal digits denotes, reading the digits by
/// their character codes.
pub open spec fn numeral_value(s: Seq<char>) -> int
    decreases s.len(),
{
    if s.len() == 0 {
        0
    } else {
        numeral_value(s.drop_last()) * 10 + (s.last() as int - '0' as int)
    }
}

/// The decimal text of a number is a base-10 numeral of that number: it is
/// not empty, every character is a digit `0` to `9`, its first digit is not
/// `0` unless the number is 0, and read back as a base-10 number it gives the
/// number again.
pub proof fn law_decimal_reads_back(n: nat)
    ensures
        decimal(n).len() > 0,
        forall|i: int| 0 <= i < decimal(n).len() ==> '0' <= #[trigger] decimal(n)[i] <= '9',
        n > 0 ==> decimal(n)[0] != '0',
        numeral_value(decimal(n)) == n,
    decreases n,
{
    let d0 = n % 10;
    assert(crate::text::digit_char(d0) as int - '0' as int == d0) by {
        assert('0' as int == 48);
        assert('9' as int == 57);
        if d0 == 0 { assert('0' as int == 48); }
        else if d0 == 1 { assert('1' as int == 49); }
        else if d0 == 2 { assert('2' as int == 50); }
        else if d0 == 3 { assert('3' as int == 51); }
        else if d0 == 4 { assert('4' as int == 52); }
        else if d0 == 5 { assert('5' as int == 53); }
        else if d0 == 6 { assert('6' as int == 54); }
        else if d0 == 7 { assert('7' as int == 55); }
        else if d0 == 8 { assert('8' as int == 56); }
        else { assert('9' as int == 57); }
    }
    if n < 10 {
        assert(decimal(n).drop_last() =~= Seq::<char>::empty());
        assert(n % 10 == n);
        assert(numeral_value(Seq::<char>::empty()) == 0);
        assert(decimal(n).last() == crate::text::digit_char(n));
        assert(numeral_value(decimal(n)) == numeral_value(decimal(n).drop_last()) * 10 + (
        decimal(n).last() as int - '0' as int));
    }
    if n >= 10 {
        law_decimal_reads_back(n / 10);
        let d = decimal(n);
        let rest = decimal(n / 10);
        assert(d.drop_last() =~= rest);
        assert(d[0] == rest[0]);
        assert forall|i: int| 0 <= i < d.len() implies '0' <= #[trigger] d[i] <= '9' by {
            if i < rest.len() {
                assert(d[i] == rest[i]);
            }
        }
        assert(numeral_value(d) == numeral_value(rest) * 10 + (d.last() as int - '0' as int));
        assert(d.last() == crate::text::digit_char(n % 10));
        assert(numeral_value(rest) == n / 10);
        assert((n / 10) * 10 + n % 10 == n);
        assert(numeral_value(d) == (n / 10) * 10 + n % 10);
    }
}
} // verus!

use ratatui::layout::Rect;
use vstd::prelude::*;

verus! {

/// The screen rectangle of ratatui, carried through this library as it is.
#[verifier::external_type_specification]
#[verifier::external_body]
pub struct ExRect(Rect);

/// The rectangle that `ratatui::layout::Rect::new` builds from its four
/// arguments.
pub uninterp spec fn rect_new_spec(x: u16, y: u16, width: u16, height: u16) -> Rect;

/// Calls `ratatui::layout::Rect::new`.
///
/// ratatui computes the result from the four arguments alone (it clips a
/// width and height whose product exceeds `u16::MAX`), so the contract names
/// it: the result is `rect_new_spec` of the arguments. `Rect` is opaque here,
/// so the contract does not spell out its fields.
#[verifier::external_body]
pub(crate) fn rect_new(x: u16, y: u16, width: u16, height: u16) -> (r: Rect)
    ensures
        r == rect_new_spec(x, y, width, height),
{
    Rect::new(x, y, width, height)
}

/// What the `Debug` impl that ratatui derives for `Rect` writes for a
/// rectangle.
pub uninterp spec fn rect_debug(r: Rect) -> Seq<char>;

/// Formats `r` with `<ratatui::layout::Rect as core::fmt::Debug>::fmt`.
///
/// ratatui derives `Debug`, so the text depends on the rectangle alone
/// (`Rect { x: .., y: .., width: .., height: .. }`); the contract names it:
/// it is `rect_debug` of `r`. `Rect` is opaque here, so the fields are not
/// written out.
#[verifier::external_body]
pub(crate) fn debug_rect(r: &Rect) -> (text: String)
    ensures
        text@ == rect_debug(*r),
{
    format!("{:?}", r)
}

/// The empty area: the rectangle at column 0, row 0 with width 0 and
/// height 0, which is also what `Rect::default()` and `Rect::ZERO` are.
pub open spec fn empty_rect() -> Rect {
    rect_new_spec(0, 0, 0, 0)
}

/// The area a widget or container reports when it has none of its own.
pub(crate) fn empty_area() -> (area: Rect)
    ensures
        area == empty_rect(),
{
    rect_new(0, 0, 0, 0)
}

} // verus!
